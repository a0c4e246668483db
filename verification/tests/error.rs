use php_docbook::error::{ParseFailure, XmlError};

#[test]
fn errors_have_their_messages() {
    assert_eq!(
        XmlError::NamespaceRegistrationError.to_string(),
        "Could not register XML namespace ?"
    );
    assert_eq!(
        XmlError::XPathInitializationError.to_string(),
        "Could not initialize the XML XPath Context"
    );
    assert_eq!(
        XmlError::XPathEvaluationError.to_string(),
        "Could not evaluate an XPath expression"
    );
    assert_eq!(
        XmlError::MalformedXmlDefinition("return type").to_string(),
        "Could not find the xml representation of the return type"
    );
    assert_eq!(
        XmlError::MalformedXmlDefinition("function parameters").to_string(),
        "Could not find the xml representation of the function parameters"
    );
    assert_eq!(XmlError::UnhandledMarkup("blink".to_string()).to_string(), "Unhandled markup <blink>");
}

#[test]
fn parse_errors_have_the_message_of_the_parser() {
    let parser_message = |error: libxml::parser::XmlParseError| format!("{error}");
    assert_eq!(
        XmlError::ParseError(ParseFailure::GotNullPointer).to_string(),
        parser_message(libxml::parser::XmlParseError::GotNullPointer)
    );
    assert_eq!(
        XmlError::ParseError(ParseFailure::FileOpenError).to_string(),
        parser_message(libxml::parser::XmlParseError::FileOpenError)
    );
    assert_eq!(
        XmlError::ParseError(ParseFailure::DocumentTooLarge).to_string(),
        parser_message(libxml::parser::XmlParseError::DocumentTooLarge)
    );
    assert_eq!(ParseFailure::GotNullPointer.to_string(), "Got a Null pointer");
}
