use php_docbook::error::XmlError;
use php_docbook::function::{Function, FunctionDefinition, Parameter};
use php_docbook::markup::MarkupNode;
use php_docbook::type_hint::{TypeHint, UnionTypeHint};

fn regular(name: &str) -> TypeHint {
    TypeHint::Regular(name.to_string())
}

fn parameter(kind: &str, name: &str) -> Parameter {
    Parameter {
        name: name.to_string(),
        type_hint: regular(kind),
        repeat: false,
        default_value: None,
        attributes: vec![],
    }
}

fn element(tag: &str, text: &str) -> MarkupNode {
    MarkupNode::element(tag).with_child(MarkupNode::text(text))
}

fn definition(name: &str, arguments: Vec<Parameter>, return_type: TypeHint) -> FunctionDefinition {
    FunctionDefinition {
        name: name.to_string(),
        short_description: String::new(),
        return_type,
        arguments,
        description: vec![],
    }
}

#[test]
fn canonical_signature_of_array_reduce() {
    let mut initial = parameter("mixed", "initial");
    initial.default_value = Some("NULL".to_string());
    let function = definition(
        "array_reduce",
        vec![parameter("array", "array"), parameter("callable", "callback"), initial],
        regular("mixed"),
    );
    assert_eq!(
        function.to_string(),
        "array_reduce(array $array, callable $callback, mixed $initial = NULL): mixed;"
    );
    assert_eq!(
        Function::Definition(function).to_string(),
        "array_reduce(array $array, callable $callback, mixed $initial = NULL): mixed;"
    );
}

#[test]
fn signature_without_parameters() {
    assert_eq!(definition("time", vec![], regular("int")).to_string(), "time(): int;");
}

#[test]
fn signature_with_a_union_return_type() {
    let hint = TypeHint::Union(UnionTypeHint {
        left: Box::new(regular("string")),
        right: Box::new(regular("false")),
    });
    let function = definition("strstr", vec![parameter("string", "haystack")], hint);
    assert_eq!(function.to_string(), "strstr(string $haystack): string|false;");
}

#[test]
fn repeat_puts_dots_before_the_name() {
    let mut values = parameter("mixed", "values");
    assert_eq!(values.to_string(), "mixed $values");
    values.repeat = true;
    assert_eq!(values.to_string(), "mixed ...$values");
    let function = definition("max", vec![parameter("mixed", "value"), values], regular("mixed"));
    assert_eq!(function.to_string(), "max(mixed $value, mixed ...$values): mixed;");
}

#[test]
fn attributes_stand_before_the_type_each_with_a_space() {
    let mut password = parameter("string", "password");
    password.attributes = vec!["#[\\SensitiveParameter]".to_string()];
    assert_eq!(password.to_string(), "#[\\SensitiveParameter] string $password");
    password.attributes.push("&".to_string());
    assert_eq!(password.to_string(), "#[\\SensitiveParameter] & string $password");
}

#[test]
fn default_value_is_written_as_it_is() {
    let mut flags = parameter("int", "flags");
    flags.default_value = Some("SORT_REGULAR | SORT_FLAG_CASE".to_string());
    assert_eq!(flags.to_string(), "int $flags = SORT_REGULAR | SORT_FLAG_CASE");
    flags.default_value = Some(String::new());
    assert_eq!(flags.to_string(), "int $flags = ");
}

#[test]
fn alias_is_written_as_its_text() {
    assert_eq!(Function::Alias("Alias of count".to_string()).to_string(), "Alias of count");
}

#[test]
fn default_parameter_has_the_implicit_type() {
    let parameter = Parameter::default();
    assert_eq!(parameter.name, "");
    assert_eq!(parameter.type_hint, regular("mixed"));
    assert!(!parameter.repeat);
    assert_eq!(parameter.default_value, None);
    assert!(parameter.attributes.is_empty());
}

#[test]
fn functions_are_ordered_and_compared() {
    let first = Function::Definition(definition("a", vec![], regular("int")));
    let second = Function::Definition(definition("b", vec![], regular("int")));
    let alias = Function::Alias("a".to_string());
    assert!(first < second);
    assert!(second < alias);
    assert_eq!(first.clone(), first);
    assert_ne!(first, second);
    let mut sorted = vec![alias.clone(), second.clone(), first.clone()];
    sorted.sort();
    assert_eq!(sorted, vec![first, second, alias]);
}

#[test]
fn declaration_with_type_and_name() {
    let node = MarkupNode::element("methodparam")
        .with_child(element("type", "mixed"))
        .with_child(element("parameter", "key"));
    assert_eq!(Parameter::extract(&node), Ok(parameter("mixed", "key")));
}

#[test]
fn declaration_without_type_is_mixed() {
    let node = MarkupNode::element("methodparam").with_child(element("parameter", "value"));
    assert_eq!(Parameter::extract(&node), Ok(parameter("mixed", "value")));
}

#[test]
fn declaration_without_name_is_refused() {
    let node = MarkupNode::element("methodparam").with_child(element("type", "int"));
    assert_eq!(
        Parameter::extract(&node),
        Err(XmlError::MalformedXmlDefinition("parameter name"))
    );
    assert_eq!(
        Parameter::extract(&MarkupNode::element("methodparam")),
        Err(XmlError::MalformedXmlDefinition("parameter name"))
    );
}

#[test]
fn declaration_marked_repeat_repeats() {
    let node = MarkupNode::element("methodparam")
        .with_attribute("rep", "repeat")
        .with_child(element("type", "mixed"))
        .with_child(element("parameter", "values"));
    let parameter = Parameter::extract(&node).unwrap();
    assert!(parameter.repeat);
    assert_eq!(parameter.to_string(), "mixed ...$values");
}

#[test]
fn only_the_exact_marker_repeats() {
    for value in ["norepeat", "Repeat", "repeat ", ""] {
        let node = MarkupNode::element("methodparam")
            .with_attribute("rep", value)
            .with_child(element("parameter", "values"));
        assert!(!Parameter::extract(&node).unwrap().repeat);
    }
    let other = MarkupNode::element("methodparam")
        .with_attribute("choice", "repeat")
        .with_child(element("parameter", "values"));
    assert!(!Parameter::extract(&other).unwrap().repeat);
}

#[test]
fn declaration_with_initializer_and_modifiers() {
    let node = MarkupNode::element("methodparam")
        .with_attribute("choice", "opt")
        .with_child(
            MarkupNode::element("modifier")
                .with_attribute("role", "attribute")
                .with_child(MarkupNode::text("#[\\SensitiveParameter]")),
        )
        .with_child(element("type", "string"))
        .with_child(element("parameter", "password"))
        .with_child(element("initializer", "\"\""));
    let parameter = Parameter::extract(&node).unwrap();
    assert_eq!(parameter.name, "password");
    assert_eq!(parameter.type_hint, regular("string"));
    assert_eq!(parameter.default_value, Some("\"\"".to_string()));
    assert_eq!(parameter.attributes, vec!["#[\\SensitiveParameter]".to_string()]);
    assert_eq!(parameter.to_string(), "#[\\SensitiveParameter] string $password = \"\"");
}

#[test]
fn modifiers_keep_their_order() {
    let modifier = |text: &str| {
        MarkupNode::element("modifier")
            .with_attribute("role", "attribute")
            .with_child(MarkupNode::text(text))
    };
    let node = MarkupNode::element("methodparam")
        .with_child(modifier("first"))
        .with_child(element("parameter", "x"))
        .with_child(modifier("second"))
        .with_child(modifier("first"));
    assert_eq!(
        Parameter::extract(&node).unwrap().attributes,
        vec!["first".to_string(), "second".to_string(), "first".to_string()]
    );
}

#[test]
fn modifier_without_the_attribute_role_is_refused() {
    let plain = MarkupNode::element("methodparam")
        .with_child(element("modifier", "public"))
        .with_child(element("parameter", "x"));
    assert_eq!(
        Parameter::extract(&plain),
        Err(XmlError::UnhandledMarkup("modifier".to_string()))
    );
    let other = MarkupNode::element("methodparam")
        .with_child(
            MarkupNode::element("modifier")
                .with_attribute("role", "visibility")
                .with_child(MarkupNode::text("public")),
        )
        .with_child(element("parameter", "x"));
    assert_eq!(
        Parameter::extract(&other),
        Err(XmlError::UnhandledMarkup("modifier".to_string()))
    );
}

#[test]
fn unknown_child_element_is_refused_by_its_name() {
    let node = MarkupNode::element("methodparam")
        .with_child(element("type", "int"))
        .with_child(element("parameter", "x"))
        .with_child(element("remark", "?"));
    assert_eq!(Parameter::extract(&node), Err(XmlError::UnhandledMarkup("remark".to_string())));
}

#[test]
fn the_first_refused_child_decides() {
    let node = MarkupNode::element("methodparam")
        .with_child(element("first", ""))
        .with_child(element("second", ""));
    assert_eq!(Parameter::extract(&node), Err(XmlError::UnhandledMarkup("first".to_string())));
    let with_type = MarkupNode::element("methodparam")
        .with_child(MarkupNode::element("type").with_child(element("type", "int")))
        .with_child(element("second", ""));
    assert_eq!(
        Parameter::extract(&with_type),
        Err(XmlError::MalformedXmlDefinition("union type"))
    );
}

#[test]
fn nodes_that_are_no_elements_are_skipped() {
    let node = MarkupNode::element("methodparam")
        .with_child(MarkupNode::text("\n   "))
        .with_child(element("type", "int"))
        .with_child(MarkupNode::entity_reference("something"))
        .with_child(element("parameter", "x"))
        .with_child(MarkupNode::text("\n  "));
    assert_eq!(Parameter::extract(&node), Ok(parameter("int", "x")));
}

#[test]
fn a_later_element_replaces_an_earlier_one() {
    let node = MarkupNode::element("methodparam")
        .with_child(element("type", "int"))
        .with_child(element("parameter", "old"))
        .with_child(element("initializer", "1"))
        .with_child(element("type", "string"))
        .with_child(element("parameter", "new"))
        .with_child(element("initializer", "2"));
    let parameter = Parameter::extract(&node).unwrap();
    assert_eq!(parameter.to_string(), "string $new = 2");
}

#[test]
fn declaration_with_a_union_type() {
    let union = MarkupNode::element("type")
        .with_attribute("class", "union")
        .with_child(element("type", "string"))
        .with_child(element("type", "int"));
    let node =
        MarkupNode::element("methodparam").with_child(union).with_child(element("parameter", "key"));
    assert_eq!(Parameter::extract(&node).unwrap().to_string(), "string|int $key");
}

#[test]
fn declarations_are_read_in_order() {
    let nodes = vec![
        MarkupNode::element("methodparam")
            .with_child(element("type", "mixed"))
            .with_child(element("parameter", "key")),
        MarkupNode::element("methodparam")
            .with_child(element("type", "array"))
            .with_child(element("parameter", "array")),
        MarkupNode::element("methodparam")
            .with_child(element("type", "mixed"))
            .with_child(element("parameter", "key")),
    ];
    assert_eq!(
        Parameter::extract_all(&nodes),
        Ok(vec![parameter("mixed", "key"), parameter("array", "array"), parameter("mixed", "key")])
    );
    assert_eq!(Parameter::extract_all(&vec![]), Ok(vec![]));
}

#[test]
fn the_first_refused_declaration_decides() {
    let nodes = vec![
        MarkupNode::element("methodparam").with_child(element("parameter", "fine")),
        MarkupNode::element("methodparam").with_child(element("type", "int")),
        MarkupNode::element("methodparam").with_child(element("unknown", "")),
    ];
    assert_eq!(
        Parameter::extract_all(&nodes),
        Err(XmlError::MalformedXmlDefinition("parameter name"))
    );
}
