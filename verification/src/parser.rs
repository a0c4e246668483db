//! The function assembler: from the answers to the queries on one document to the function
//! that the document describes.

use vstd::prelude::*;
use crate::document::{is_answer, xml_parser, QueryFailed, Session};
use crate::error::{outcome_view, XmlError, XmlErrorView};
use crate::function::{
    parameter_views, parameters_of, Function, FunctionDefinition, FunctionDefinitionView,
    FunctionView, Parameter,
};
use crate::markup::{node_views, MarkupNode, MarkupNodeView};
use crate::strings::{concat_all, concatenated, views_of};
use crate::text::{description_of, piece_views, TextNode};
use crate::type_hint::{resolved, TypeHint, TypeHintView};

verus! {

/// The query for the name of the function.
pub const TITLE_PATH: &'static str = "//d:refentry/d:refnamediv/d:refname";

/// The query for the short description of the function.
pub const PURPOSE_PATH: &'static str = "//d:refentry/d:refnamediv/d:refpurpose";

/// The query for the return type in the synopsis of the signature.
pub const RETURN_TYPE_PATH: &'static str =
    "//d:refentry/d:refsect1[@role=\"description\"]/d:methodsynopsis/d:type";

/// The query for the parameter declarations in the synopsis of the signature.
pub const PARAMETERS_PATH: &'static str =
    "/d:refentry/d:refsect1[@role=\"description\"]/d:methodsynopsis/d:methodparam";

/// The query for the paragraphs of the description.
pub const PARAGRAPH_PATH: &'static str = "/d:refentry/d:refsect1[@role=\"description\"]/d:para";

/// The query for the simple paragraphs of the description.
pub const SIMPLE_PARAGRAPH_PATH: &'static str =
    "/d:refentry/d:refsect1[@role=\"description\"]/d:simpara";

/// The answers that decide what kind of entry a document is.
#[derive(Debug, PartialEq, Eq)]
pub struct Heading {
    /// The answer to [`TITLE_PATH`].
    pub title: Result<Vec<String>, QueryFailed>,
    /// The answer to [`PURPOSE_PATH`].
    pub short_description: Result<Vec<String>, QueryFailed>,
    /// The answer to [`RETURN_TYPE_PATH`].
    pub return_type: Result<Vec<MarkupNode>, QueryFailed>,
}

/// The answers that are read only for a document that defines a function.
#[derive(Debug, PartialEq, Eq)]
pub struct Details {
    /// The answer to [`PARAMETERS_PATH`].
    pub parameters: Result<Vec<MarkupNode>, QueryFailed>,
    /// The answer to [`PARAGRAPH_PATH`].
    pub paragraph: Result<Vec<MarkupNode>, QueryFailed>,
    /// The answer to [`SIMPLE_PARAGRAPH_PATH`].
    pub simple_paragraph: Result<Vec<MarkupNode>, QueryFailed>,
}

/// What the heading of a document settles.
#[derive(Debug, Clone, PartialEq, Eq)]
pub enum Outline {
    /// The document is an alias with this text. Nothing more of it is read.
    Alias(String),
    /// The document defines a function. Its parameters and its description are still to be
    /// read.
    Definition { name: String, short_description: String, return_type: TypeHint },
}

/// The mathematical value of a [`Heading`].
pub struct HeadingView {
    pub title: Result<Seq<Seq<char>>, QueryFailed>,
    pub short_description: Result<Seq<Seq<char>>, QueryFailed>,
    pub return_type: Result<Seq<MarkupNodeView>, QueryFailed>,
}

/// The mathematical value of a [`Details`].
pub struct DetailsView {
    pub parameters: Result<Seq<MarkupNodeView>, QueryFailed>,
    pub paragraph: Result<Seq<MarkupNodeView>, QueryFailed>,
    pub simple_paragraph: Result<Seq<MarkupNodeView>, QueryFailed>,
}

/// The mathematical value of an [`Outline`].
pub enum OutlineView {
    Alias(Seq<char>),
    Definition { name: Seq<char>, short_description: Seq<char>, return_type: TypeHintView },
}

/// The mathematical value of an answer that holds strings.
pub open spec fn texts_answer(answer: Result<Vec<String>, QueryFailed>) -> Result<
    Seq<Seq<char>>,
    QueryFailed,
> {
    match answer {
        Ok(texts) => Ok(views_of(texts@)),
        Err(failed) => Err(failed),
    }
}

/// The mathematical value of an answer that holds nodes.
pub open spec fn nodes_answer(answer: Result<Vec<MarkupNode>, QueryFailed>) -> Result<
    Seq<MarkupNodeView>,
    QueryFailed,
> {
    match answer {
        Ok(nodes) => Ok(node_views(nodes@)),
        Err(failed) => Err(failed),
    }
}

impl View for Heading {
    type V = HeadingView;

    open spec fn view(&self) -> HeadingView {
        HeadingView {
            title: texts_answer(self.title),
            short_description: texts_answer(self.short_description),
            return_type: nodes_answer(self.return_type),
        }
    }
}

impl View for Details {
    type V = DetailsView;

    open spec fn view(&self) -> DetailsView {
        DetailsView {
            parameters: nodes_answer(self.parameters),
            paragraph: nodes_answer(self.paragraph),
            simple_paragraph: nodes_answer(self.simple_paragraph),
        }
    }
}

impl View for Outline {
    type V = OutlineView;

    open spec fn view(&self) -> OutlineView {
        match self {
            Outline::Alias(text) => OutlineView::Alias(text@),
            Outline::Definition { name, short_description, return_type } => OutlineView::Definition {
                name: name@,
                short_description: short_description@,
                return_type: return_type@,
            },
        }
    }
}

/// The part that is named when the parameter declarations cannot be had.
pub open spec fn parameters_part() -> Seq<char> {
    "function parameters"@
}

/// What the heading settles. Each of the three queries must have been evaluated. The name and
/// the short description are the matched strings, one after the other. Without a match for
/// the return type the document is an alias, and its text is the short description. With a
/// match the document defines a function, whose return type is read from the first match.
pub open spec fn outlined(heading: HeadingView) -> Result<OutlineView, XmlErrorView> {
    match (heading.title, heading.short_description, heading.return_type) {
        (Ok(title), Ok(short_description), Ok(matches)) => {
            if matches.len() == 0 {
                Ok(OutlineView::Alias(concatenated(short_description)))
            } else {
                match resolved(matches[0]) {
                    Ok(return_type) => Ok(
                        OutlineView::Definition {
                            name: concatenated(title),
                            short_description: concatenated(short_description),
                            return_type,
                        },
                    ),
                    Err(error) => Err(error),
                }
            }
        },
        _ => Err(XmlErrorView::XPathEvaluationError),
    }
}

/// The paragraph that the description is compiled from: the first paragraph, or without one
/// the first simple paragraph, or none at all. A query that could not be evaluated counts as
/// one without matches.
pub open spec fn first_paragraph(details: DetailsView) -> Option<MarkupNodeView> {
    match details.paragraph {
        Ok(matches) if matches.len() > 0 => Some(matches[0]),
        _ => match details.simple_paragraph {
            Ok(matches) if matches.len() > 0 => Some(matches[0]),
            _ => None,
        },
    }
}

/// The entry that an outline and the details make. An alias is complete as it is. A
/// definition takes its parameters from the declarations, in order, and its description from
/// the first paragraph; it fails if the declarations could not be queried, or with the first
/// failure among the declarations and then the paragraph.
pub open spec fn completed(outline: OutlineView, details: DetailsView) -> Result<
    FunctionView,
    XmlErrorView,
> {
    match outline {
        OutlineView::Alias(text) => Ok(FunctionView::Alias(text)),
        OutlineView::Definition { name, short_description, return_type } => match details.parameters {
            Err(_) => Err(XmlErrorView::MalformedXmlDefinition(parameters_part())),
            Ok(declarations) => match parameters_of(declarations, declarations.len() as int) {
                Err(error) => Err(error),
                Ok(arguments) => match description_of(first_paragraph(details)) {
                    Err(error) => Err(error),
                    Ok(description) => Ok(
                        FunctionView::Definition(
                            FunctionDefinitionView {
                                name,
                                short_description,
                                return_type,
                                arguments,
                                description,
                            },
                        ),
                    ),
                },
            },
        },
    }
}

/// The entry that the answers of one document make, or the failure that ends its conversion.
pub open spec fn assembled(heading: HeadingView, details: DetailsView) -> Result<
    FunctionView,
    XmlErrorView,
> {
    match outlined(heading) {
        Err(error) => Err(error),
        Ok(outline) => completed(outline, details),
    }
}

/// A document whose query for the return type has no match is an alias, and its text is its
/// short description. The details play no part: they may hold anything, and need not have been
/// read at all.
pub proof fn alias_without_return_type(heading: HeadingView, details: DetailsView)
    requires
        heading.title is Ok,
        heading.short_description is Ok,
        heading.return_type matches Ok(matches) && matches.len() == 0,
    ensures
        outlined(heading) == Ok::<OutlineView, XmlErrorView>(
            OutlineView::Alias(concatenated(heading.short_description->Ok_0)),
        ),
        assembled(heading, details) == Ok::<FunctionView, XmlErrorView>(
            FunctionView::Alias(concatenated(heading.short_description->Ok_0)),
        ),
{
}

/// A document whose query for the return type has a match, and whose conversion succeeds, is
/// a definition with every field set: the name and the short description from the heading, the
/// return type from the first match, the parameters from the declarations in their order, and
/// the description from the first paragraph.
pub proof fn definition_with_return_type(heading: HeadingView, details: DetailsView)
    requires
        heading.return_type matches Ok(matches) && matches.len() > 0,
        assembled(heading, details) is Ok,
    ensures
        assembled(heading, details) matches Ok(FunctionView::Definition(definition)) && {
            &&& heading.title is Ok
            &&& heading.short_description is Ok
            &&& details.parameters is Ok
            &&& definition.name == concatenated(heading.title->Ok_0)
            &&& definition.short_description == concatenated(heading.short_description->Ok_0)
            &&& Ok::<TypeHintView, XmlErrorView>(definition.return_type) == resolved(
                heading.return_type->Ok_0[0],
            )
            &&& Ok::<Seq<crate::function::ParameterView>, XmlErrorView>(definition.arguments)
                == parameters_of(
                details.parameters->Ok_0,
                details.parameters->Ok_0.len() as int,
            )
            &&& Ok::<Seq<crate::text::TextNodeView>, XmlErrorView>(definition.description)
                == description_of(first_paragraph(details))
        },
{
}

impl Outline {
    /// Reads the heading of a document. See [`outlined`].
    pub fn read(heading: &Heading) -> (outline: Result<Outline, XmlError>)
        ensures
            outcome_view(outline) == outlined(heading@),
    {
        let title = match &heading.title {
            Ok(texts) => concat_all(texts),
            Err(_) => {
                return Err(XmlError::XPathEvaluationError);
            },
        };
        let short_description = match &heading.short_description {
            Ok(texts) => concat_all(texts),
            Err(_) => {
                return Err(XmlError::XPathEvaluationError);
            },
        };
        let matches = match &heading.return_type {
            Ok(matches) => matches,
            Err(_) => {
                return Err(XmlError::XPathEvaluationError);
            },
        };
        if matches.len() == 0 {
            return Ok(Outline::Alias(short_description));
        }
        match TypeHint::from(&matches[0]) {
            Ok(return_type) => Ok(
                Outline::Definition { name: title, short_description, return_type },
            ),
            Err(error) => Err(error),
        }
    }

    /// Completes the entry with the details. See [`completed`].
    pub fn complete(self, details: &Details) -> (function: Result<Function, XmlError>)
        ensures
            outcome_view(function) == completed(self@, details@),
    {
        let (name, short_description, return_type) = match self {
            Outline::Alias(text) => {
                return Ok(Function::Alias(text));
            },
            Outline::Definition { name, short_description, return_type } => (
                name,
                short_description,
                return_type,
            ),
        };
        let arguments = match &details.parameters {
            Err(_) => {
                return Err(XmlError::MalformedXmlDefinition("function parameters"));
            },
            Ok(declarations) => match Parameter::extract_all(declarations) {
                Ok(arguments) => arguments,
                Err(error) => {
                    return Err(error);
                },
            },
        };
        let description = match TextNode::compile_description(first_match(details)) {
            Ok(description) => description,
            Err(error) => {
                return Err(error);
            },
        };
        Ok(
            Function::Definition(
                FunctionDefinition { name, short_description, return_type, arguments, description },
            ),
        )
    }
}

/// The paragraph that the description is compiled from. See [`first_paragraph`].
pub fn first_match(details: &Details) -> (paragraph: Option<&MarkupNode>)
    ensures
        match paragraph {
            Some(node) => first_paragraph(details@) == Some(node@),
            None => first_paragraph(details@) is None,
        },
{
    match &details.paragraph {
        Ok(matches) if matches.len() > 0 => {
            return Some(&matches[0]);
        },
        _ => {},
    }
    match &details.simple_paragraph {
        Ok(matches) if matches.len() > 0 => Some(&matches[0]),
        _ => None,
    }
}

impl Function {
    /// Assembles the entry of one document from the answers to all its queries. See
    /// [`assembled`].
    pub fn assemble(heading: &Heading, details: &Details) -> (function: Result<Function, XmlError>)
        ensures
            outcome_view(function) == assembled(heading@, details@),
    {
        match Outline::read(heading) {
            Ok(outline) => outline.complete(details),
            Err(error) => Err(error),
        }
    }
}

/// Converts documents with libxml2 as the markup parser.
pub struct XmlParser {
    parser: libxml::parser::Parser,
}

impl Default for XmlParser {
    /// A converter for XML documents.
    fn default() -> Self {
        XmlParser { parser: xml_parser() }
    }
}

/// The details of a document that defines a function: the answers to the three queries that
/// are asked only of such a document. What the queries match is up to the markup parser; the
/// nodes of each answer are copies, as [`Session::nodes`] makes them.
fn read_details(session: &Session) -> (details: Details)
    ensures
        is_answer(details.parameters),
        is_answer(details.paragraph),
        is_answer(details.simple_paragraph),
{
    Details {
        parameters: session.nodes(PARAMETERS_PATH),
        paragraph: session.nodes(PARAGRAPH_PATH),
        simple_paragraph: session.nodes(SIMPLE_PARAGRAPH_PATH),
    }
}

impl XmlParser {
    /// Converts one document into the entry that it describes.
    ///
    /// The document is parsed and queried by libxml2, so nothing is promised of which entry
    /// comes out of which bytes. What holds of every outcome: either the document could not
    /// be opened for queries, or the outcome is what [`assembled`] makes of some answers.
    /// The parameters and the description of a document are queried only after its heading
    /// has shown that it defines a function.
    pub fn parse_function<Bytes: AsRef<[u8]>>(&self, content: Bytes) -> (function: Result<
        Function,
        XmlError,
    >)
        ensures
            (function matches Err(error) && (error is ParseError || error
                is XPathInitializationError || error is NamespaceRegistrationError)) || exists|
                heading: HeadingView,
                details: DetailsView,
            |
                outcome_view(function) == #[trigger] assembled(heading, details),
    {
        let session = match Session::open(&self.parser, content) {
            Ok(session) => session,
            Err(error) => {
                return Err(error);
            },
        };
        let heading = Heading {
            title: session.texts(TITLE_PATH),
            short_description: session.texts(PURPOSE_PATH),
            return_type: session.nodes(RETURN_TYPE_PATH),
        };
        let outline = match Outline::read(&heading) {
            Ok(outline) => outline,
            Err(error) => {
                let ghost unread = DetailsView {
                    parameters: Err(QueryFailed),
                    paragraph: Err(QueryFailed),
                    simple_paragraph: Err(QueryFailed),
                };
                assert(assembled(heading@, unread) == Err::<FunctionView, XmlErrorView>(error@));
                return Err(error);
            },
        };
        match outline {
            Outline::Alias(text) => {
                let ghost unread = DetailsView {
                    parameters: Err(QueryFailed),
                    paragraph: Err(QueryFailed),
                    simple_paragraph: Err(QueryFailed),
                };
                assert(assembled(heading@, unread) == Ok::<FunctionView, XmlErrorView>(
                    FunctionView::Alias(text@),
                ));
                Ok(Function::Alias(text))
            },
            definition => {
                let details = read_details(&session);
                let function = definition.complete(&details);
                assert(outcome_view(function) == assembled(heading@, details@));
                function
            },
        }
    }
}

} // verus!
