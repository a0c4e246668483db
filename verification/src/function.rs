//! Documented functions: their parameters, their signature and how it is written on one line.

use vstd::prelude::*;
use vstd::string::StringExecFns;
use crate::error::{outcome_view, XmlError, XmlErrorView};
use crate::markup::{
    attribute_value, lemma_node_view, node_views, MarkupNode, MarkupNodeView, NodeKind,
};
use crate::strings::{joined, str_equal};
use crate::text::{piece_views, TextNode, TextNodeView};
use crate::type_hint::{implicit_type, resolved, TypeHint, TypeHintView};

verus! {

/// What one document describes.
#[derive(Debug, Clone, PartialEq, Eq, PartialOrd, Ord)]
pub enum Function {
    /// A function with its signature.
    Definition(FunctionDefinition),
    /// An entry that only points to another function. The text is its short description.
    Alias(String),
}

/// A function with its full signature and its description.
#[derive(Debug, Clone, PartialEq, Eq, PartialOrd, Ord)]
pub struct FunctionDefinition {
    pub name: String,
    pub short_description: String,
    pub return_type: TypeHint,
    /// The parameters in the order of their declaration.
    pub arguments: Vec<Parameter>,
    /// The pieces of the description in reading order.
    pub description: Vec<TextNode>,
}

/// One parameter of a function.
#[derive(Debug, Clone, PartialEq, Eq, PartialOrd, Ord)]
pub struct Parameter {
    pub name: String,
    pub type_hint: TypeHint,
    /// Whether the parameter takes any number of arguments.
    pub repeat: bool,
    /// The default value as the source writes it.
    pub default_value: Option<String>,
    /// The modifiers of the parameter, such as a marker for passing by reference.
    pub attributes: Vec<String>,
}

/// The mathematical value of a [`Parameter`].
pub struct ParameterView {
    pub name: Seq<char>,
    pub type_hint: TypeHintView,
    pub repeat: bool,
    pub default_value: Option<Seq<char>>,
    pub attributes: Seq<Seq<char>>,
}

/// The mathematical value of a [`FunctionDefinition`].
pub struct FunctionDefinitionView {
    pub name: Seq<char>,
    pub short_description: Seq<char>,
    pub return_type: TypeHintView,
    pub arguments: Seq<ParameterView>,
    pub description: Seq<TextNodeView>,
}

/// The mathematical value of a [`Function`].
pub enum FunctionView {
    Definition(FunctionDefinitionView),
    Alias(Seq<char>),
}

/// The mathematical value of every parameter of `parameters`, in order.
pub open spec fn parameter_views(parameters: Seq<Parameter>) -> Seq<ParameterView> {
    Seq::new(parameters.len(), |i: int| parameters[i]@)
}

impl View for Parameter {
    type V = ParameterView;

    open spec fn view(&self) -> ParameterView {
        ParameterView {
            name: self.name@,
            type_hint: self.type_hint@,
            repeat: self.repeat,
            default_value: match self.default_value {
                Some(value) => Some(value@),
                None => None,
            },
            attributes: Seq::new(self.attributes@.len(), |i: int| self.attributes@[i]@),
        }
    }
}

impl View for FunctionDefinition {
    type V = FunctionDefinitionView;

    open spec fn view(&self) -> FunctionDefinitionView {
        FunctionDefinitionView {
            name: self.name@,
            short_description: self.short_description@,
            return_type: self.return_type@,
            arguments: parameter_views(self.arguments@),
            description: piece_views(self.description@),
        }
    }
}

impl View for Function {
    type V = FunctionView;

    open spec fn view(&self) -> FunctionView {
        match self {
            Function::Definition(definition) => FunctionView::Definition(definition@),
            Function::Alias(text) => FunctionView::Alias(text@),
        }
    }
}

/// The modifiers as they stand before a parameter's type: each one followed by a space.
pub open spec fn attributes_text(attributes: Seq<Seq<char>>) -> Seq<char>
    decreases attributes.len(),
{
    if attributes.len() == 0 {
        Seq::empty()
    } else {
        attributes_text(attributes.drop_last()) + attributes.last() + " "@
    }
}

impl ParameterView {
    /// What stands before the `$` of the parameter: its modifiers, its type and a space, and
    /// `...` where it takes any number of arguments.
    pub open spec fn head(self) -> Seq<char> {
        attributes_text(self.attributes) + self.type_hint.text() + " "@ + if self.repeat {
            "..."@
        } else {
            Seq::empty()
        }
    }

    /// What stands behind the name of the parameter: ` = ` and its default value, if it has
    /// one.
    pub open spec fn tail(self) -> Seq<char> {
        match self.default_value {
            Some(value) => " = "@ + value,
            None => Seq::empty(),
        }
    }

    /// How the parameter is written in a signature.
    pub open spec fn text(self) -> Seq<char> {
        self.head() + "$"@ + self.name + self.tail()
    }
}

/// A parameter that takes any number of arguments is written like the same parameter that
/// takes one, with `...` put directly before the `$` of its name.
pub proof fn variadic_marker_precedes_name(parameter: ParameterView)
    ensures
        ({
            let single = ParameterView { repeat: false, ..parameter };
            let variadic = ParameterView { repeat: true, ..parameter };
            &&& single.text() == single.head() + "$"@ + parameter.name + parameter.tail()
            &&& variadic.text() == single.head() + "..."@ + "$"@ + parameter.name
                + parameter.tail()
        }),
{
    let single = ParameterView { repeat: false, ..parameter };
    let variadic = ParameterView { repeat: true, ..parameter };
    assert(single.head() =~= attributes_text(parameter.attributes) + parameter.type_hint.text()
        + " "@);
    assert(variadic.head() =~= single.head() + "..."@);
    assert(single.tail() == parameter.tail());
    assert(variadic.tail() == parameter.tail());
}

/// How each parameter of `parameters` is written.
pub open spec fn parameter_texts(parameters: Seq<ParameterView>) -> Seq<Seq<char>> {
    Seq::new(parameters.len(), |i: int| parameters[i].text())
}

impl FunctionDefinitionView {
    /// The signature on one line: `name(parameters): type;`, the parameters with `, ` between
    /// them.
    pub open spec fn text(self) -> Seq<char> {
        self.name + "("@ + joined(parameter_texts(self.arguments), ", "@) + "): "@
            + self.return_type.text() + ";"@
    }
}

impl FunctionView {
    /// How the entry is written on one line: a definition as its signature, an alias as its
    /// text.
    pub open spec fn text(self) -> Seq<char> {
        match self {
            FunctionView::Definition(definition) => definition.text(),
            FunctionView::Alias(text) => text,
        }
    }
}

/// What has been read of a parameter declaration so far.
pub struct ParameterDraft {
    pub type_hint: Option<TypeHintView>,
    pub name: Option<Seq<char>>,
    pub default_value: Option<Seq<char>>,
    pub attributes: Seq<Seq<char>>,
}

/// The part that is named when a parameter declaration gives no name.
pub open spec fn name_part() -> Seq<char> {
    "parameter name"@
}

/// What one child element adds to a draft: a `type` sets the type, a `parameter` the name, an
/// `initializer` the default value, and a `modifier` with the role `attribute` adds a
/// modifier. A later element of the same kind replaces what an earlier one set. Any other
/// element is refused, and so is a type that cannot be read.
pub open spec fn declared_step(draft: ParameterDraft, child: MarkupNodeView) -> Result<
    ParameterDraft,
    XmlErrorView,
> {
    if child.name == "type"@ {
        match resolved(child) {
            Ok(hint) => Ok(ParameterDraft { type_hint: Some(hint), ..draft }),
            Err(error) => Err(error),
        }
    } else if child.name == "parameter"@ {
        Ok(ParameterDraft { name: Some(child.content), ..draft })
    } else if child.name == "initializer"@ {
        Ok(ParameterDraft { default_value: Some(child.content), ..draft })
    } else if child.name == "modifier"@ && attribute_value(child.attributes, "role"@) == Some(
        "attribute"@,
    ) {
        Ok(ParameterDraft { attributes: draft.attributes.push(child.content), ..draft })
    } else {
        Err(XmlErrorView::UnhandledMarkup(child.name))
    }
}

/// What the first `upto` children of a parameter declaration say. Only child elements count;
/// they are read in document order, and the first that is refused ends the reading.
pub open spec fn declared(node: MarkupNodeView, upto: int) -> Result<ParameterDraft, XmlErrorView>
    decreases upto,
{
    if upto <= 0 || upto > node.children.len() {
        Ok(
            ParameterDraft {
                type_hint: None,
                name: None,
                default_value: None,
                attributes: Seq::empty(),
            },
        )
    } else {
        match declared(node, upto - 1) {
            Err(error) => Err(error),
            Ok(draft) => {
                let child = node.children[upto - 1];
                if child.kind != NodeKind::Element {
                    Ok(draft)
                } else {
                    declared_step(draft, child)
                }
            },
        }
    }
}

/// The parameter that a declaration stands for. It repeats exactly if the declaration's `rep`
/// attribute is `repeat`. Without a type it has the implicit type; without a name it is
/// refused.
pub open spec fn parameter_of(node: MarkupNodeView) -> Result<ParameterView, XmlErrorView> {
    match declared(node, node.children.len() as int) {
        Err(error) => Err(error),
        Ok(draft) => match draft.name {
            None => Err(XmlErrorView::MalformedXmlDefinition(name_part())),
            Some(name) => Ok(
                ParameterView {
                    name,
                    type_hint: match draft.type_hint {
                        Some(hint) => hint,
                        None => implicit_type(),
                    },
                    repeat: attribute_value(node.attributes, "rep"@) == Some("repeat"@),
                    default_value: draft.default_value,
                    attributes: draft.attributes,
                },
            ),
        },
    }
}

/// The parameters that the first `upto` declarations of `nodes` stand for, in order, or the
/// failure of the first of them that is refused.
pub open spec fn parameters_of(nodes: Seq<MarkupNodeView>, upto: int) -> Result<
    Seq<ParameterView>,
    XmlErrorView,
>
    decreases upto,
{
    if upto <= 0 || upto > nodes.len() {
        Ok(Seq::empty())
    } else {
        match parameters_of(nodes, upto - 1) {
            Err(error) => Err(error),
            Ok(before) => match parameter_of(nodes[upto - 1]) {
                Err(error) => Err(error),
                Ok(parameter) => Ok(before.push(parameter)),
            },
        }
    }
}

/// Once a child of a declaration is refused, looking at more children does not change the
/// failure.
proof fn lemma_declared_failure_stays(node: MarkupNodeView, failed: int, upto: int)
    requires
        declared(node, failed) is Err,
        failed <= upto <= node.children.len(),
    ensures
        declared(node, upto) == declared(node, failed),
    decreases upto - failed,
{
    if failed < upto {
        lemma_declared_failure_stays(node, failed, upto - 1);
    }
}

/// Once a declaration is refused, looking at more declarations does not change the failure.
proof fn lemma_parameters_failure_stays(nodes: Seq<MarkupNodeView>, failed: int, upto: int)
    requires
        parameters_of(nodes, failed) is Err,
        failed <= upto <= nodes.len(),
    ensures
        parameters_of(nodes, upto) == parameters_of(nodes, failed),
    decreases upto - failed,
{
    if failed < upto {
        lemma_parameters_failure_stays(nodes, failed, upto - 1);
    }
}

/// The characters of every string of `texts`, in order.
pub open spec fn text_views(texts: Seq<String>) -> Seq<Seq<char>> {
    Seq::new(texts.len(), |i: int| texts[i]@)
}

impl Default for Parameter {
    /// A parameter without a name, of the implicit type, with nothing else set.
    fn default() -> (parameter: Self)
        ensures
            parameter@ == (ParameterView {
                name: Seq::empty(),
                type_hint: implicit_type(),
                repeat: false,
                default_value: None,
                attributes: Seq::empty(),
            }),
    {
        let parameter = Parameter {
            name: String::new(),
            type_hint: TypeHint::default(),
            repeat: false,
            default_value: None,
            attributes: Vec::new(),
        };
        assert(parameter@.attributes =~= Seq::empty());
        parameter
    }
}

impl Parameter {
    /// Reads one parameter declaration. See [`parameter_of`].
    pub fn extract(node: &MarkupNode) -> (parameter: Result<Parameter, XmlError>)
        ensures
            outcome_view(parameter) == parameter_of(node@),
    {
        proof {
            lemma_node_view(node);
        }
        let repeat = match node.attribute("rep") {
            Some(value) => str_equal(value.as_str(), "repeat"),
            None => false,
        };
        let mut type_hint: Option<TypeHint> = None;
        let mut name: Option<String> = None;
        let mut default_value: Option<String> = None;
        let mut attributes: Vec<String> = Vec::new();
        let mut i: usize = 0;
        assert(text_views(attributes@) =~= Seq::empty());
        while i < node.children.len()
            invariant
                i <= node.children.len(),
                node@.children.len() == node.children@.len(),
                forall|k: int|
                    0 <= k < node.children@.len() ==> node@.children[k] == node.children@[k]@,
                declared(node@, i as int) == Ok::<ParameterDraft, XmlErrorView>(
                    ParameterDraft {
                        type_hint: match type_hint {
                            Some(hint) => Some(hint@),
                            None => None,
                        },
                        name: match name {
                            Some(text) => Some(text@),
                            None => None,
                        },
                        default_value: match default_value {
                            Some(text) => Some(text@),
                            None => None,
                        },
                        attributes: text_views(attributes@),
                    },
                ),
            decreases node.children.len() - i,
        {
            let child = &node.children[i];
            proof {
                lemma_node_view(child);
            }
            if child.kind == NodeKind::Element {
                let tag = child.name.as_str();
                let modifier = str_equal(tag, "modifier") && match child.attribute("role") {
                    Some(role) => str_equal(role.as_str(), "attribute"),
                    None => false,
                };
                if str_equal(tag, "type") {
                    match TypeHint::from(child) {
                        Ok(hint) => {
                            type_hint = Some(hint);
                        },
                        Err(error) => {
                            proof {
                                lemma_declared_failure_stays(
                                    node@,
                                    i + 1,
                                    node@.children.len() as int,
                                );
                            }
                            return Err(error);
                        },
                    }
                } else if str_equal(tag, "parameter") {
                    name = Some(child.content.clone());
                } else if str_equal(tag, "initializer") {
                    default_value = Some(child.content.clone());
                } else if modifier {
                    proof {
                        assert(text_views(attributes@.push(child.content)) =~= text_views(
                            attributes@,
                        ).push(child.content@));
                    }
                    attributes.push(child.content.clone());
                } else {
                    proof {
                        lemma_declared_failure_stays(node@, i + 1, node@.children.len() as int);
                    }
                    return Err(XmlError::UnhandledMarkup(child.name.clone()));
                }
            }
            i += 1;
        }
        match name {
            None => Err(XmlError::MalformedXmlDefinition("parameter name")),
            Some(name) => {
                let parameter = Parameter {
                    name,
                    type_hint: match type_hint {
                        Some(hint) => hint,
                        None => TypeHint::default(),
                    },
                    repeat,
                    default_value,
                    attributes,
                };
                assert(parameter@.attributes =~= text_views(attributes@));
                Ok(parameter)
            },
        }
    }

    /// Reads the parameter declarations of a signature, in order. The first declaration that
    /// is refused ends the reading with its failure.
    pub fn extract_all(nodes: &Vec<MarkupNode>) -> (parameters: Result<Vec<Parameter>, XmlError>)
        ensures
            match parameters {
                Ok(list) => parameters_of(node_views(nodes@), nodes.len() as int) == Ok::<
                    Seq<ParameterView>,
                    XmlErrorView,
                >(parameter_views(list@)),
                Err(error) => parameters_of(node_views(nodes@), nodes.len() as int) == Err::<
                    Seq<ParameterView>,
                    XmlErrorView,
                >(error@),
            },
    {
        let mut list: Vec<Parameter> = Vec::new();
        let mut i: usize = 0;
        assert(parameter_views(list@) =~= Seq::empty());
        while i < nodes.len()
            invariant
                i <= nodes.len(),
                parameters_of(node_views(nodes@), i as int) == Ok::<
                    Seq<ParameterView>,
                    XmlErrorView,
                >(parameter_views(list@)),
            decreases nodes.len() - i,
        {
            match Parameter::extract(&nodes[i]) {
                Ok(parameter) => {
                    proof {
                        assert(parameter_views(list@.push(parameter)) =~= parameter_views(
                            list@,
                        ).push(parameter@));
                    }
                    list.push(parameter);
                },
                Err(error) => {
                    proof {
                        lemma_parameters_failure_stays(
                            node_views(nodes@),
                            i + 1,
                            nodes.len() as int,
                        );
                    }
                    return Err(error);
                },
            }
            i += 1;
        }
        Ok(list)
    }

    /// Writes the parameter as it stands in a signature. See [`ParameterView::text`].
    pub fn to_string(&self) -> (text: String)
        ensures
            text@ == self@.text(),
    {
        let mut text = String::new();
        let mut i: usize = 0;
        while i < self.attributes.len()
            invariant
                i <= self.attributes.len(),
                text@ == attributes_text(self@.attributes.take(i as int)),
            decreases self.attributes.len() - i,
        {
            text.append(self.attributes[i].as_str());
            text.append(" ");
            proof {
                let done = self@.attributes.take(i + 1);
                assert(done.drop_last() =~= self@.attributes.take(i as int));
                assert(done.last() == self.attributes@[i as int]@);
            }
            i += 1;
        }
        assert(self@.attributes.take(self.attributes.len() as int) =~= self@.attributes);
        let hint = self.type_hint.to_string();
        text.append(hint.as_str());
        text.append(" ");
        if self.repeat {
            text.append("...");
        }
        assert(text@ =~= self@.head());
        text.append("$");
        text.append(self.name.as_str());
        match &self.default_value {
            Some(value) => {
                text.append(" = ");
                text.append(value.as_str());
            },
            None => {},
        }
        assert(text@ =~= self@.text());
        text
    }
}

impl FunctionDefinition {
    /// Writes the signature on one line. See [`FunctionDefinitionView::text`].
    pub fn to_string(&self) -> (text: String)
        ensures
            text@ == self@.text(),
    {
        let mut list = String::new();
        let mut i: usize = 0;
        while i < self.arguments.len()
            invariant
                i <= self.arguments.len(),
                list@ == joined(parameter_texts(self@.arguments).take(i as int), ", "@),
            decreases self.arguments.len() - i,
        {
            if i > 0 {
                list.append(", ");
            }
            let argument = self.arguments[i].to_string();
            list.append(argument.as_str());
            proof {
                let done = parameter_texts(self@.arguments).take(i + 1);
                assert(done.drop_last() =~= parameter_texts(self@.arguments).take(i as int));
                assert(done.last() == self.arguments@[i as int]@.text());
            }
            i += 1;
        }
        assert(parameter_texts(self@.arguments).take(self.arguments.len() as int)
            =~= parameter_texts(self@.arguments));
        let mut text = self.name.clone();
        text.append("(");
        text.append(list.as_str());
        text.append("): ");
        let hint = self.return_type.to_string();
        text.append(hint.as_str());
        text.append(";");
        assert(text@ =~= self@.text());
        text
    }
}

impl Function {
    /// Writes the entry on one line. See [`FunctionView::text`].
    pub fn to_string(&self) -> (text: String)
        ensures
            text@ == self@.text(),
    {
        match self {
            Function::Definition(definition) => definition.to_string(),
            Function::Alias(text) => text.clone(),
        }
    }
}

} // verus!
