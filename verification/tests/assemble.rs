use php_docbook::document::QueryFailed;
use php_docbook::error::XmlError;
use php_docbook::function::{Function, FunctionDefinition, Parameter};
use php_docbook::markup::MarkupNode;
use php_docbook::parser::{first_match, Details, Heading, Outline};
use php_docbook::text::TextNode;
use php_docbook::type_hint::TypeHint;

fn element(tag: &str, text: &str) -> MarkupNode {
    MarkupNode::element(tag).with_child(MarkupNode::text(text))
}

fn texts(parts: &[&str]) -> Result<Vec<String>, QueryFailed> {
    Ok(parts.iter().map(|part| part.to_string()).collect())
}

fn heading(return_type: Vec<MarkupNode>) -> Heading {
    Heading {
        title: texts(&["array_key_exists"]),
        short_description: texts(&["Checks if the given key or index exists in the array"]),
        return_type: Ok(return_type),
    }
}

fn declaration(kind: &str, name: &str) -> MarkupNode {
    MarkupNode::element("methodparam")
        .with_child(element("type", kind))
        .with_child(element("parameter", name))
}

fn details() -> Details {
    Details {
        parameters: Ok(vec![declaration("mixed", "key"), declaration("array", "array")]),
        paragraph: Ok(vec![MarkupNode::element("para")
            .with_child(element("function", "array_key_exists"))
            .with_child(MarkupNode::text(" returns true."))]),
        simple_paragraph: Ok(vec![]),
    }
}

fn nothing() -> Details {
    Details { parameters: Ok(vec![]), paragraph: Ok(vec![]), simple_paragraph: Ok(vec![]) }
}

fn unread() -> Details {
    Details {
        parameters: Err(QueryFailed),
        paragraph: Err(QueryFailed),
        simple_paragraph: Err(QueryFailed),
    }
}

fn regular(name: &str) -> TypeHint {
    TypeHint::Regular(name.to_string())
}

#[test]
fn document_without_return_type_is_an_alias() {
    let alias = Function::Alias("Checks if the given key or index exists in the array".to_string());
    assert_eq!(Function::assemble(&heading(vec![]), &details()), Ok(alias.clone()));
    assert_eq!(Function::assemble(&heading(vec![]), &nothing()), Ok(alias.clone()));
    assert_eq!(Function::assemble(&heading(vec![]), &unread()), Ok(alias));
}

#[test]
fn alias_does_not_look_at_its_details() {
    let broken = Details {
        parameters: Ok(vec![MarkupNode::element("methodparam").with_child(element("unknown", ""))]),
        paragraph: Ok(vec![MarkupNode::element("para").with_child(element("blink", ""))]),
        simple_paragraph: Err(QueryFailed),
    };
    let heading = Heading {
        title: texts(&[]),
        short_description: texts(&["Alias of ", "count"]),
        return_type: Ok(vec![]),
    };
    assert_eq!(Outline::read(&heading).ok().map(|outline| matches!(outline, Outline::Alias(_))), Some(true));
    assert_eq!(Function::assemble(&heading, &broken), Ok(Function::Alias("Alias of count".to_string())));
}

#[test]
fn document_with_return_type_is_a_definition() {
    let function = Function::assemble(&heading(vec![element("type", "bool")]), &details());
    assert_eq!(
        function,
        Ok(Function::Definition(FunctionDefinition {
            name: "array_key_exists".to_string(),
            short_description: "Checks if the given key or index exists in the array".to_string(),
            return_type: regular("bool"),
            arguments: vec![
                Parameter {
                    name: "key".to_string(),
                    type_hint: regular("mixed"),
                    repeat: false,
                    default_value: None,
                    attributes: vec![],
                },
                Parameter {
                    name: "array".to_string(),
                    type_hint: regular("array"),
                    repeat: false,
                    default_value: None,
                    attributes: vec![],
                },
            ],
            description: vec![
                TextNode::Function("array_key_exists".to_string()),
                TextNode::Text(" returns true.".to_string()),
            ],
        }))
    );
    assert_eq!(
        function.unwrap().to_string(),
        "array_key_exists(mixed $key, array $array): bool;"
    );
}

#[test]
fn only_the_first_match_of_the_return_type_counts() {
    let function =
        Function::assemble(&heading(vec![element("type", "int"), element("type", "string")]), &nothing())
            .unwrap();
    assert_eq!(function.to_string(), "array_key_exists(): int;");
}

#[test]
fn matched_strings_are_put_together() {
    let heading = Heading {
        title: texts(&["str", "len"]),
        short_description: texts(&["Get ", "string", " length"]),
        return_type: Ok(vec![element("type", "int")]),
    };
    match Function::assemble(&heading, &nothing()).unwrap() {
        Function::Definition(definition) => {
            assert_eq!(definition.name, "strlen");
            assert_eq!(definition.short_description, "Get string length");
        },
        Function::Alias(text) => panic!("an alias: {text}"),
    }
}

#[test]
fn failed_heading_queries_are_evaluation_errors() {
    let mut no_title = heading(vec![element("type", "int")]);
    no_title.title = Err(QueryFailed);
    assert_eq!(Function::assemble(&no_title, &details()), Err(XmlError::XPathEvaluationError));
    let mut no_purpose = heading(vec![]);
    no_purpose.short_description = Err(QueryFailed);
    assert_eq!(Function::assemble(&no_purpose, &details()), Err(XmlError::XPathEvaluationError));
    let mut no_type = heading(vec![]);
    no_type.return_type = Err(QueryFailed);
    assert_eq!(Function::assemble(&no_type, &details()), Err(XmlError::XPathEvaluationError));
}

#[test]
fn malformed_return_type_fails_the_document() {
    let broken = MarkupNode::element("type").with_child(element("type", "int"));
    assert_eq!(
        Function::assemble(&heading(vec![broken]), &details()),
        Err(XmlError::MalformedXmlDefinition("union type"))
    );
}

#[test]
fn failed_parameter_query_is_a_malformed_definition() {
    let mut details = details();
    details.parameters = Err(QueryFailed);
    assert_eq!(
        Function::assemble(&heading(vec![element("type", "bool")]), &details),
        Err(XmlError::MalformedXmlDefinition("function parameters"))
    );
}

#[test]
fn unknown_tag_in_a_declaration_fails_the_document() {
    let mut details = details();
    details.parameters = Ok(vec![
        declaration("mixed", "key"),
        MarkupNode::element("methodparam").with_child(element("surprise", "")),
    ]);
    assert_eq!(
        Function::assemble(&heading(vec![element("type", "bool")]), &details),
        Err(XmlError::UnhandledMarkup("surprise".to_string()))
    );
}

#[test]
fn unknown_tag_in_the_paragraph_fails_the_document() {
    let mut details = details();
    details.paragraph = Ok(vec![MarkupNode::element("para").with_child(element("blink", "x"))]);
    assert_eq!(
        Function::assemble(&heading(vec![element("type", "bool")]), &details),
        Err(XmlError::UnhandledMarkup("blink".to_string()))
    );
}

#[test]
fn declarations_are_read_before_the_paragraph() {
    let details = Details {
        parameters: Ok(vec![MarkupNode::element("methodparam").with_child(element("surprise", ""))]),
        paragraph: Ok(vec![MarkupNode::element("para").with_child(element("blink", "x"))]),
        simple_paragraph: Ok(vec![]),
    };
    assert_eq!(
        Function::assemble(&heading(vec![element("type", "bool")]), &details),
        Err(XmlError::UnhandledMarkup("surprise".to_string()))
    );
}

#[test]
fn description_comes_from_the_first_paragraph() {
    let details = Details {
        parameters: Ok(vec![]),
        paragraph: Ok(vec![element("para", "first"), element("para", "second")]),
        simple_paragraph: Ok(vec![element("simpara", "simple")]),
    };
    assert_eq!(first_match(&details), Some(&element("para", "first")));
    match Function::assemble(&heading(vec![element("type", "bool")]), &details).unwrap() {
        Function::Definition(definition) => {
            assert_eq!(definition.description, vec![TextNode::Text("first".to_string())]);
        },
        Function::Alias(text) => panic!("an alias: {text}"),
    }
}

#[test]
fn description_falls_back_to_the_simple_paragraph() {
    let without = Details {
        parameters: Ok(vec![]),
        paragraph: Ok(vec![]),
        simple_paragraph: Ok(vec![element("simpara", "simple"), element("simpara", "other")]),
    };
    assert_eq!(first_match(&without), Some(&element("simpara", "simple")));
    let failed = Details {
        parameters: Ok(vec![]),
        paragraph: Err(QueryFailed),
        simple_paragraph: Ok(vec![element("simpara", "simple")]),
    };
    assert_eq!(first_match(&failed), Some(&element("simpara", "simple")));
    match Function::assemble(&heading(vec![element("type", "bool")]), &failed).unwrap() {
        Function::Definition(definition) => {
            assert_eq!(definition.description, vec![TextNode::Text("simple".to_string())]);
        },
        Function::Alias(text) => panic!("an alias: {text}"),
    }
}

#[test]
fn description_without_any_paragraph_is_empty() {
    assert_eq!(first_match(&nothing()), None);
    let failed = Details {
        parameters: Ok(vec![]),
        paragraph: Err(QueryFailed),
        simple_paragraph: Err(QueryFailed),
    };
    assert_eq!(first_match(&failed), None);
    match Function::assemble(&heading(vec![element("type", "bool")]), &failed).unwrap() {
        Function::Definition(definition) => assert!(definition.description.is_empty()),
        Function::Alias(text) => panic!("an alias: {text}"),
    }
}

#[test]
fn outline_then_details_is_the_same_as_all_at_once() {
    let heading = heading(vec![element("type", "bool")]);
    let outline = Outline::read(&heading).unwrap();
    assert_eq!(outline.complete(&details()), Function::assemble(&heading, &details()));
}
