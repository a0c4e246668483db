use php_docbook::error::XmlError;
use php_docbook::markup::MarkupNode;
use php_docbook::type_hint::{TypeHint, UnionTypeHint};

fn regular(name: &str) -> TypeHint {
    TypeHint::Regular(name.to_string())
}

fn pair(left: TypeHint, right: TypeHint) -> TypeHint {
    TypeHint::Union(UnionTypeHint { left: Box::new(left), right: Box::new(right) })
}

fn type_element(name: &str) -> MarkupNode {
    MarkupNode::element("type").with_child(MarkupNode::text(name))
}

#[test]
fn regular_hint_is_written_as_its_name() {
    assert_eq!(regular("int").to_string(), "int");
    assert_eq!(regular("").to_string(), "");
}

#[test]
fn default_hint_is_mixed() {
    assert_eq!(TypeHint::default(), regular("mixed"));
    assert_eq!(TypeHint::default().to_string(), "mixed");
}

#[test]
fn union_of_three_is_written_in_order() {
    let union = TypeHint::union(vec![regular("A"), regular("B"), regular("C")]).unwrap();
    assert_eq!(union.to_string(), "A|B|C");
}

#[test]
fn union_of_two_is_one_pair() {
    let union = TypeHint::union(vec![regular("int"), regular("string")]).unwrap();
    assert_eq!(union, pair(regular("int"), regular("string")));
    assert_eq!(union.to_string(), "int|string");
}

#[test]
fn union_keeps_the_first_on_the_left_and_chains_the_rest() {
    let union = TypeHint::union(vec![regular("A"), regular("B"), regular("C"), regular("D")])
        .unwrap();
    assert_eq!(
        union,
        pair(regular("A"), pair(pair(regular("B"), regular("C")), regular("D")))
    );
    assert_eq!(union.to_string(), "A|B|C|D");
}

#[test]
fn union_of_unions_is_written_flat() {
    let inner = TypeHint::union(vec![regular("B"), regular("C")]).unwrap();
    let union = TypeHint::union(vec![regular("A"), inner, regular("D")]).unwrap();
    assert_eq!(union.to_string(), "A|B|C|D");
}

#[test]
fn union_needs_two_alternatives() {
    assert_eq!(TypeHint::union(vec![]), None);
    assert_eq!(TypeHint::union(vec![regular("int")]), None);
}

#[test]
fn clone_of_a_hint_is_equal_to_it() {
    let union = TypeHint::union(vec![regular("A"), regular("B"), regular("C")]).unwrap();
    assert_eq!(union.clone(), union);
    assert_eq!(regular("int").clone(), regular("int"));
}

#[test]
fn type_element_without_child_elements_is_regular() {
    assert_eq!(TypeHint::from(&type_element("bool")), Ok(regular("bool")));
    assert_eq!(TypeHint::from(&MarkupNode::element("type")), Ok(regular("")));
}

#[test]
fn type_element_with_two_child_elements_is_a_union() {
    let node = MarkupNode::element("type")
        .with_attribute("class", "union")
        .with_child(type_element("int"))
        .with_child(type_element("string"));
    let hint = TypeHint::from(&node).unwrap();
    assert_eq!(hint, pair(regular("int"), regular("string")));
    assert_eq!(hint.to_string(), "int|string");
}

#[test]
fn type_element_with_three_child_elements_keeps_their_order() {
    let node = MarkupNode::element("type")
        .with_child(type_element("array"))
        .with_child(type_element("string"))
        .with_child(type_element("null"));
    let hint = TypeHint::from(&node).unwrap();
    assert_eq!(hint, pair(regular("array"), pair(regular("string"), regular("null"))));
    assert_eq!(hint.to_string(), "array|string|null");
}

#[test]
fn type_element_with_five_child_elements_chains_to_the_right_side() {
    let node = MarkupNode::element("type")
        .with_child(type_element("a"))
        .with_child(type_element("b"))
        .with_child(type_element("c"))
        .with_child(type_element("d"))
        .with_child(type_element("e"));
    let hint = TypeHint::from(&node).unwrap();
    assert_eq!(
        hint,
        pair(
            regular("a"),
            pair(pair(pair(regular("b"), regular("c")), regular("d")), regular("e"))
        )
    );
    assert_eq!(hint.to_string(), "a|b|c|d|e");
}

#[test]
fn only_child_elements_count_as_alternatives() {
    let node = MarkupNode::element("type")
        .with_child(MarkupNode::text("\n  "))
        .with_child(type_element("int"))
        .with_child(MarkupNode::text("\n  "))
        .with_child(MarkupNode::entity_reference("null"))
        .with_child(type_element("float"))
        .with_child(MarkupNode::text("\n"));
    assert_eq!(TypeHint::from(&node), Ok(pair(regular("int"), regular("float"))));
}

#[test]
fn nested_unions_are_resolved_from_the_inside() {
    let inner = MarkupNode::element("type")
        .with_child(type_element("int"))
        .with_child(type_element("float"));
    let node = MarkupNode::element("type").with_child(inner).with_child(type_element("null"));
    let hint = TypeHint::from(&node).unwrap();
    assert_eq!(hint, pair(pair(regular("int"), regular("float")), regular("null")));
    assert_eq!(hint.to_string(), "int|float|null");
}

#[test]
fn type_element_with_a_single_child_element_is_refused() {
    let node = MarkupNode::element("type").with_child(type_element("int"));
    assert_eq!(TypeHint::from(&node), Err(XmlError::MalformedXmlDefinition("union type")));
}

#[test]
fn a_refused_alternative_refuses_the_union() {
    let broken = MarkupNode::element("type").with_child(type_element("int"));
    let node = MarkupNode::element("type")
        .with_child(type_element("string"))
        .with_child(broken)
        .with_child(type_element("null"));
    assert_eq!(TypeHint::from(&node), Err(XmlError::MalformedXmlDefinition("union type")));
}

#[test]
fn text_of_a_type_element_is_taken_as_it_is() {
    let node = MarkupNode::element("type").with_child(MarkupNode::text("  array \n"));
    assert_eq!(TypeHint::from(&node), Ok(regular("  array \n")));
}
