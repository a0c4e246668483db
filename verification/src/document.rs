//! The parse context: a document parsed by libxml2, the path queries on it, and the copying of
//! what the queries match into [`MarkupNode`] values.

use vstd::prelude::*;
use crate::error::{ParseFailure, XmlError};
use crate::markup::{
    lemma_node_view, Attribute, AttributeView, MarkupNode, MarkupNodeView, NodeKind,
};
use crate::strings::has_nul_byte;

verus! {

/// `Parser` of libxml, the markup parser. The library only hands it on.
#[verifier::external_type_specification]
#[verifier::external_body]
pub struct ExParser(libxml::parser::Parser);

/// `XmlParseError` of libxml, the failure of the markup parser. It is turned into a
/// [`ParseFailure`] as soon as it arrives.
#[verifier::external_type_specification]
#[verifier::external_body]
pub struct ExXmlParseError(libxml::parser::XmlParseError);

/// `Document` of libxml, a parsed document. The library only hands it on.
#[verifier::external_type_specification]
#[verifier::external_body]
pub struct ExDocument(libxml::tree::Document);

/// `Node` of libxml, one node of a parsed document. The library only hands it on; what it
/// reads of a node, it reads from the node's copy as a [`MarkupNode`].
#[verifier::external_type_specification]
#[verifier::external_body]
pub struct ExNode(libxml::tree::Node);

/// `Context` of libxml, the query context of a document. The library only hands it on.
#[verifier::external_type_specification]
#[verifier::external_body]
pub struct ExContext(libxml::xpath::Context);

/// `Object` of libxml, what a path query evaluates to. The library only hands it on.
#[verifier::external_type_specification]
#[verifier::external_body]
pub struct ExObject(libxml::xpath::Object);

/// A path query could not be evaluated. This is not the same as a query without matches.
#[derive(Clone, Copy, Debug, PartialEq, Eq, Structural)]
pub struct QueryFailed;

/// A parsed document together with the query context that was made for it. The context and
/// every node that a query gives are only of use while the document is there, so the session
/// owns the document, and what comes out of a session borrows it.
pub struct Session {
    document: libxml::tree::Document,
    context: libxml::xpath::Context,
}

/// What a query evaluated to. It borrows the session that answered it, which keeps the
/// document in place.
struct Found<'a> {
    object: libxml::xpath::Object,
    session: &'a Session,
}

/// One node of a document. It borrows the session that holds the document, which keeps the
/// document in place.
struct Located<'a> {
    node: libxml::tree::Node,
    session: &'a Session,
}

/// `Parser::default` of libxml: a parser for XML documents. Nothing is claimed of it.
#[verifier::external_body]
pub(crate) fn xml_parser() -> libxml::parser::Parser {
    libxml::parser::Parser::default()
}

/// `Parser::parse_string` of libxml: parses the bytes with the parser's default options.
/// Nothing is claimed of the outcome.
#[verifier::external_body]
fn parse_bytes<Bytes: AsRef<[u8]>>(parser: &libxml::parser::Parser, content: Bytes) -> Result<
    libxml::tree::Document,
    libxml::parser::XmlParseError,
> {
    parser.parse_string(content)
}

/// Tells the variants of libxml's `XmlParseError` apart.
#[verifier::external_body]
fn failure_of(error: &libxml::parser::XmlParseError) -> ParseFailure {
    match error {
        libxml::parser::XmlParseError::GotNullPointer => ParseFailure::GotNullPointer,
        libxml::parser::XmlParseError::FileOpenError => ParseFailure::FileOpenError,
        libxml::parser::XmlParseError::DocumentTooLarge => ParseFailure::DocumentTooLarge,
    }
}

/// `Context::new` of libxml: a query context for the document. Nothing is claimed of the
/// outcome.
#[verifier::external_body]
fn query_context(document: &libxml::tree::Document) -> Result<libxml::xpath::Context, ()> {
    libxml::xpath::Context::new(document)
}

/// `Context::register_namespace` of libxml: binds `prefix` to the namespace `href` for the
/// queries of this context. libxml hands both to C as strings, which a zero byte would end
/// early, so neither may hold one. Nothing is claimed of the outcome.
#[verifier::external_body]
fn bind_prefix(context: &libxml::xpath::Context, prefix: &str, href: &str) -> Result<(), ()>
    requires
        !vstd::utf8::encode_utf8(prefix@).contains(0u8),
        !vstd::utf8::encode_utf8(href@).contains(0u8),
{
    context.register_namespace(prefix, href)
}

/// `Context::evaluate` of libxml: evaluates the path query `path` on the session's document.
/// The path may hold no zero byte, as for [`bind_prefix`]. Nothing is claimed of the outcome.
#[verifier::external_body]
fn evaluate<'a>(session: &'a Session, path: &str) -> Result<Found<'a>, ()>
    requires
        !vstd::utf8::encode_utf8(path@).contains(0u8),
{
    session.context.evaluate(path).map(|object| Found { object, session })
}

/// `Object::get_nodes_as_vec` of libxml: the nodes that a query matched. libxml needs the
/// document to be there, which the borrowed session sees to. Nothing is claimed of the nodes.
#[verifier::external_body]
fn found_nodes<'a>(found: &Found<'a>) -> Vec<Located<'a>> {
    let session = found.session;
    found.object.get_nodes_as_vec().into_iter().map(|node| Located { node, session }).collect()
}

/// `Object::get_nodes_as_str` of libxml: the string value of each node that a query matched.
/// Nothing is claimed of them.
#[verifier::external_body]
fn found_texts<'a>(found: &Found<'a>) -> Vec<String> {
    found.object.get_nodes_as_str()
}

/// `Node::get_name` of libxml: the name of the node. Nothing is claimed of it.
#[verifier::external_body]
fn node_name<'a>(at: &Located<'a>) -> String {
    at.node.get_name()
}

/// `Node::get_content` of libxml: the text content of the node. Nothing is claimed of it.
#[verifier::external_body]
fn node_content<'a>(at: &Located<'a>) -> String {
    at.node.get_content()
}

/// `Node::get_attribute` of libxml: the value of the node's attribute `name`, if it has one.
/// The name may hold no zero byte, as for [`bind_prefix`]. Nothing is claimed of the outcome.
#[verifier::external_body]
fn node_attribute<'a>(at: &Located<'a>, name: &str) -> Option<String>
    requires
        !vstd::utf8::encode_utf8(name@).contains(0u8),
{
    at.node.get_attribute(name)
}

/// `Node::get_child_nodes` of libxml: the child nodes in document order. libxml needs the
/// document to be there, which the borrowed session sees to. Nothing is claimed of the nodes.
#[verifier::external_body]
fn node_children<'a>(at: &Located<'a>) -> Vec<Located<'a>> {
    let session = at.session;
    at.node.get_child_nodes().into_iter().map(|node| Located { node, session }).collect()
}

/// `Node::get_type` of libxml, told apart as far as the converter cares: an element,
/// character data, an entity reference, or anything else.
#[verifier::external_body]
fn node_kind<'a>(at: &Located<'a>) -> NodeKind {
    match at.node.get_type() {
        Some(libxml::tree::NodeType::ElementNode) => NodeKind::Element,
        Some(libxml::tree::NodeType::TextNode) => NodeKind::Text,
        Some(libxml::tree::NodeType::EntityRefNode) => NodeKind::EntityReference,
        _ => NodeKind::Other,
    }
}

/// The namespace of the markup vocabulary.
pub const VOCABULARY: &'static str = "http://docbook.org/ns/docbook";

/// The prefix that the queries use for the vocabulary.
pub const VOCABULARY_PREFIX: &'static str = "d";

impl Session {
    /// Parses `content` and makes the document ready for queries in the vocabulary.
    ///
    /// Whether this succeeds is up to the markup parser; each failure says which step gave up.
    pub fn open<Bytes: AsRef<[u8]>>(
        parser: &libxml::parser::Parser,
        content: Bytes,
    ) -> (session: Result<Session, XmlError>)
        ensures
            session matches Err(error) ==> error is ParseError || error
                is XPathInitializationError || error is NamespaceRegistrationError,
    {
        let document = match parse_bytes(parser, content) {
            Ok(document) => document,
            Err(error) => {
                return Err(XmlError::ParseError(failure_of(&error)));
            },
        };
        let context = match query_context(&document) {
            Ok(context) => context,
            Err(_) => {
                return Err(XmlError::XPathInitializationError);
            },
        };
        if has_nul_byte(VOCABULARY_PREFIX) || has_nul_byte(VOCABULARY) {
            return Err(XmlError::NamespaceRegistrationError);
        }
        match bind_prefix(&context, VOCABULARY_PREFIX, VOCABULARY) {
            Ok(_) => Ok(Session { document, context }),
            Err(_) => Err(XmlError::NamespaceRegistrationError),
        }
    }

    /// The nodes that `path` matches, in the order in which the query gives them, each copied
    /// with the elements below it.
    ///
    /// What the markup parser finds is not for this library to promise. A query fails if it
    /// cannot be evaluated; a path with a zero byte in it is such a query, and so, in
    /// principle, is one whose matches nest deeper than `usize::MAX` levels. Every node that
    /// comes back has the shape of a copy; see [`is_copy`].
    pub fn nodes(&self, path: &str) -> (matches: Result<Vec<MarkupNode>, QueryFailed>)
        ensures
            vstd::utf8::encode_utf8(path@).contains(0u8) ==> matches is Err,
            is_answer(matches),
    {
        if has_nul_byte(path) {
            return Err(QueryFailed);
        }
        let found = match evaluate(self, path) {
            Ok(found) => found,
            Err(_) => {
                return Err(QueryFailed);
            },
        };
        match copy_all(&found_nodes(&found), usize::MAX) {
            Some(nodes) => Ok(nodes),
            None => Err(QueryFailed),
        }
    }

    /// The string value of each node that `path` matches, in the order in which the query
    /// gives them.
    ///
    /// What the markup parser finds is not for this library to promise. A query fails if it
    /// cannot be evaluated; a path with a zero byte in it is such a query.
    pub fn texts(&self, path: &str) -> (matches: Result<Vec<String>, QueryFailed>)
        ensures
            vstd::utf8::encode_utf8(path@).contains(0u8) ==> matches is Err,
    {
        if has_nul_byte(path) {
            return Err(QueryFailed);
        }
        match evaluate(self, path) {
            Ok(found) => Ok(found_texts(&found)),
            Err(_) => Err(QueryFailed),
        }
    }
}

/// Adds the attribute `name` of the node to `attributes`, if the node has it: the list stays as
/// it is, or gets one more attribute, which is called `name`, at its end.
fn copy_attribute<'a>(at: &Located<'a>, name: &str, attributes: &mut Vec<Attribute>)
    ensures
        final(attributes)@ == old(attributes)@ || exists|added: Attribute|
            added.name@ == name@ && final(attributes)@ == #[trigger] old(attributes)@.push(added),
        vstd::utf8::encode_utf8(name@).contains(0u8) ==> final(attributes)@ == old(attributes)@,
{
    if has_nul_byte(name) {
        return ;
    }
    match node_attribute(at, name) {
        Some(value) => {
            let added = Attribute { name: name.to_owned(), value };
            assert(added.name@ == name@);
            attributes.push(added);
        },
        None => {},
    }
}

/// Copies each of `places` with [`copy`], in order; `None` if one of them cannot be copied.
/// There is one copy for each place.
fn copy_all<'a>(places: &Vec<Located<'a>>, depth: usize) -> (copies: Option<Vec<MarkupNode>>)
    ensures
        copies matches Some(list) ==> list.len() == places.len() && are_copies(
            list@,
            depth as nat,
        ),
    decreases depth, 1nat, places.len(),
{
    let mut copies: Vec<MarkupNode> = Vec::new();
    let mut i: usize = 0;
    while i < places.len()
        invariant
            i <= places.len(),
            copies.len() == i,
            are_copies(copies@, depth as nat),
        decreases places.len() - i,
    {
        match copy(&places[i], depth) {
            Some(node) => copies.push(node),
            None => {
                return None;
            },
        }
        i += 1;
    }
    Some(copies)
}

/// Copies a node out of its document: its kind, name and text content, the attributes that
/// the converter reads (`rep`, `role` and `linkend`), and, for an element, its child nodes in
/// document order. The children of a node that is not an element are not followed.
///
/// `depth` bounds how many levels below the node are followed; `None` if the tree goes deeper.
/// What the node holds is up to the markup parser; the shape of the copy is [`is_copy`].
fn copy<'a>(at: &Located<'a>, depth: usize) -> (node: Option<MarkupNode>)
    ensures
        node matches Some(copied) ==> is_copy(copied@, depth as nat),
    decreases depth, 0nat, 0nat,
{
    let kind = node_kind(at);
    let mut attributes: Vec<Attribute> = Vec::new();
    copy_attribute(at, "rep", &mut attributes);
    let ghost rep = if attributes.len() == 0 {
        None
    } else {
        Some(attributes@[0].value@)
    };
    let ghost first = attributes@;
    copy_attribute(at, "role", &mut attributes);
    let ghost role = if attributes.len() == first.len() {
        None
    } else {
        Some(attributes@[first.len() as int].value@)
    };
    let ghost second = attributes@;
    copy_attribute(at, "linkend", &mut attributes);
    let ghost linkend = if attributes.len() == second.len() {
        None
    } else {
        Some(attributes@[second.len() as int].value@)
    };
    let mut children: Vec<MarkupNode> = Vec::new();
    if kind == NodeKind::Element {
        let below = node_children(at);
        if below.len() > 0 {
            if depth == 0 {
                return None;
            }
            children = match copy_all(&below, depth - 1) {
                Some(children) => children,
                None => {
                    return None;
                },
            };
        }
    }
    let copied = MarkupNode {
        kind,
        name: node_name(at),
        content: node_content(at),
        attributes,
        children,
    };
    proof {
        lemma_node_view(&copied);
        assert(copied@.attributes =~= read_attributes(rep, role, linkend));
    }
    Some(copied)
}

/// The attribute called `name` as a copy holds it: one attribute if the node has a value for
/// it, and none if it has not.
pub open spec fn read_attribute(name: Seq<char>, value: Option<Seq<char>>) -> Seq<AttributeView> {
    match value {
        Some(value) => seq![AttributeView { name, value }],
        None => Seq::empty(),
    }
}

/// The attributes of a copy: of `rep`, `role` and `linkend`, in this order, those that the node
/// has a value for.
pub open spec fn read_attributes(
    rep: Option<Seq<char>>,
    role: Option<Seq<char>>,
    linkend: Option<Seq<char>>,
) -> Seq<AttributeView> {
    read_attribute("rep"@, rep) + read_attribute("role"@, role) + read_attribute(
        "linkend"@,
        linkend,
    )
}

/// Whether `node` has the shape of a copy that follows at most `depth` levels below it. Its
/// attributes are those that the converter reads; only an element has children; and its
/// children are copies that follow one level less.
pub open spec fn is_copy(node: MarkupNodeView, depth: nat) -> bool
    decreases node,
{
    &&& exists|rep: Option<Seq<char>>, role: Option<Seq<char>>, linkend: Option<Seq<char>>|
        node.attributes == #[trigger] read_attributes(rep, role, linkend)
    &&& node.kind != NodeKind::Element ==> node.children.len() == 0
    &&& node.children.len() > 0 ==> depth > 0
    &&& forall|i: int|
        0 <= i < node.children.len() ==> is_copy(#[trigger] node.children[i], (depth - 1) as nat)
}

/// Whether every node of `nodes` has the shape of a copy that follows at most `depth` levels.
pub open spec fn are_copies(nodes: Seq<MarkupNode>, depth: nat) -> bool {
    forall|i: int| 0 <= i < nodes.len() ==> is_copy(#[trigger] nodes[i]@, depth)
}

/// Whether the nodes of an answer, if it holds any, have the shape of copies.
pub open spec fn is_answer(answer: Result<Vec<MarkupNode>, QueryFailed>) -> bool {
    answer matches Ok(nodes) ==> are_copies(nodes@, usize::MAX as nat)
}

} // verus!
