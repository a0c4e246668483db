//! The ways in which converting one document can fail.

use vstd::prelude::*;
use vstd::string::StringExecFns;

verus! {

/// Why the markup parser produced no document.
#[derive(Clone, Copy, Debug, PartialEq, Eq, Structural)]
pub enum ParseFailure {
    /// The parser handed back no document at all.
    GotNullPointer,
    /// The input could not be opened.
    FileOpenError,
    /// The input is longer than the parser can address.
    DocumentTooLarge,
}

/// A failure that ends the conversion of one document.
#[derive(Clone, Debug, PartialEq, Eq)]
pub enum XmlError {
    /// The bytes are not a document that the markup parser accepts.
    ParseError(ParseFailure),
    /// The namespace prefix of the vocabulary could not be bound.
    NamespaceRegistrationError,
    /// No query context could be made for the document.
    XPathInitializationError,
    /// A path query could not be evaluated; this is not the same as a query without matches.
    XPathEvaluationError,
    /// A part of the definition is there but cannot be read as what it should be. The text
    /// names the part.
    MalformedXmlDefinition(&'static str),
    /// A construct that the converter has no rule for. The text is its tag name.
    UnhandledMarkup(String),
}

/// The mathematical value of an [`XmlError`].
pub enum XmlErrorView {
    ParseError(ParseFailure),
    NamespaceRegistrationError,
    XPathInitializationError,
    XPathEvaluationError,
    MalformedXmlDefinition(Seq<char>),
    UnhandledMarkup(Seq<char>),
}

impl View for XmlError {
    type V = XmlErrorView;

    open spec fn view(&self) -> XmlErrorView {
        match self {
            XmlError::ParseError(failure) => XmlErrorView::ParseError(*failure),
            XmlError::NamespaceRegistrationError => XmlErrorView::NamespaceRegistrationError,
            XmlError::XPathInitializationError => XmlErrorView::XPathInitializationError,
            XmlError::XPathEvaluationError => XmlErrorView::XPathEvaluationError,
            XmlError::MalformedXmlDefinition(part) => XmlErrorView::MalformedXmlDefinition(part@),
            XmlError::UnhandledMarkup(tag) => XmlErrorView::UnhandledMarkup(tag@),
        }
    }
}

/// The mathematical value of the outcome of a step that can fail.
pub open spec fn outcome_view<T: View>(outcome: Result<T, XmlError>) -> Result<T::V, XmlErrorView> {
    match outcome {
        Ok(value) => Ok(value@),
        Err(error) => Err(error@),
    }
}

impl ParseFailure {
    /// The message of this failure.
    pub open spec fn text(self) -> Seq<char> {
        match self {
            ParseFailure::GotNullPointer => "Got a Null pointer"@,
            ParseFailure::FileOpenError => "Unable to open path to file."@,
            ParseFailure::DocumentTooLarge => "Document too large for i32."@,
        }
    }

    /// The message of this failure.
    pub fn to_string(&self) -> (message: String)
        ensures
            message@ == self.text(),
    {
        match self {
            ParseFailure::GotNullPointer => "Got a Null pointer".to_owned(),
            ParseFailure::FileOpenError => "Unable to open path to file.".to_owned(),
            ParseFailure::DocumentTooLarge => "Document too large for i32.".to_owned(),
        }
    }
}

impl XmlErrorView {
    /// The message of this error.
    pub open spec fn text(self) -> Seq<char> {
        match self {
            XmlErrorView::ParseError(failure) => failure.text(),
            XmlErrorView::NamespaceRegistrationError => "Could not register XML namespace ?"@,
            XmlErrorView::XPathInitializationError => "Could not initialize the XML XPath Context"@,
            XmlErrorView::XPathEvaluationError => "Could not evaluate an XPath expression"@,
            XmlErrorView::MalformedXmlDefinition(part) => "Could not find the xml representation of the "@
                + part,
            XmlErrorView::UnhandledMarkup(tag) => "Unhandled markup <"@ + tag + ">"@,
        }
    }
}

impl XmlError {
    /// The message of this error, for a log or a user.
    pub fn to_string(&self) -> (message: String)
        ensures
            message@ == self@.text(),
    {
        match self {
            XmlError::ParseError(failure) => failure.to_string(),
            XmlError::NamespaceRegistrationError => "Could not register XML namespace ?".to_owned(),
            XmlError::XPathInitializationError => "Could not initialize the XML XPath Context".to_owned(),
            XmlError::XPathEvaluationError => "Could not evaluate an XPath expression".to_owned(),
            XmlError::MalformedXmlDefinition(part) => {
                "Could not find the xml representation of the ".to_owned().concat(part)
            },
            XmlError::UnhandledMarkup(tag) => {
                "Unhandled markup <".to_owned().concat(tag.as_str()).concat(">")
            },
        }
    }
}

} // verus!
