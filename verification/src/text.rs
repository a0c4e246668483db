//! The typed pieces of a description, and how a paragraph of the markup is compiled into them.

use vstd::prelude::*;
use vstd::string::StringExecFns;
use crate::error::{outcome_view, XmlError, XmlErrorView};
use crate::markup::{attribute_value, lemma_node_view, MarkupNode, MarkupNodeView, NodeKind};
use crate::strings::str_equal;
use crate::type_hint::{resolved, TypeHint, TypeHintView};

verus! {

/// One piece of a description. The pieces of a paragraph stand in reading order.
#[derive(Debug, Clone, PartialEq, Eq, PartialOrd, Ord)]
pub enum TextNode {
    /// Plain text.
    Text(String),
    /// Text set in bold.
    BoldText(String),
    /// Text set in italics.
    ItalicText(String),
    /// A heading inside the description.
    Subtitle(String),
    /// The name of a function.
    Function(String),
    /// The name of a constant.
    Constant(String),
    /// The name of a parameter or of a variable.
    Parameter(String),
    /// The name of a class.
    Classname(String),
    /// The name of an interface.
    InterfaceName(String),
    /// A literal value.
    Literal(String),
    /// The name of a file.
    Filename(String),
    /// A type.
    Type(TypeHint),
    /// A listing of code.
    Code(String),
    /// The text of a link.
    Link(String),
    /// A note to the reader.
    Note(String),
    /// Text as a screen shows it.
    Inset(String),
    /// The name of an HTML tag.
    HtmlTag(String),
    /// Code in the line of text.
    InlineCode(String),
    /// PHP code in the line of text.
    InlinePhpCode(String),
    /// The name of a method, such as `Countable::count`.
    MethodName(String),
    /// The text of a table.
    Table(String),
    /// The target of a cross reference.
    Xref(String),
    /// A warning to the reader.
    Warning(String),
    /// A place in the sequence that holds nothing to show.
    Placeholder,
}

/// The mathematical value of a [`TextNode`].
pub enum TextNodeView {
    Text(Seq<char>),
    BoldText(Seq<char>),
    ItalicText(Seq<char>),
    Subtitle(Seq<char>),
    Function(Seq<char>),
    Constant(Seq<char>),
    Parameter(Seq<char>),
    Classname(Seq<char>),
    InterfaceName(Seq<char>),
    Literal(Seq<char>),
    Filename(Seq<char>),
    Type(TypeHintView),
    Code(Seq<char>),
    Link(Seq<char>),
    Note(Seq<char>),
    Inset(Seq<char>),
    HtmlTag(Seq<char>),
    InlineCode(Seq<char>),
    InlinePhpCode(Seq<char>),
    MethodName(Seq<char>),
    Table(Seq<char>),
    Xref(Seq<char>),
    Warning(Seq<char>),
    Placeholder,
}

impl View for TextNode {
    type V = TextNodeView;

    open spec fn view(&self) -> TextNodeView {
        match self {
            TextNode::Text(text) => TextNodeView::Text(text@),
            TextNode::BoldText(text) => TextNodeView::BoldText(text@),
            TextNode::ItalicText(text) => TextNodeView::ItalicText(text@),
            TextNode::Subtitle(text) => TextNodeView::Subtitle(text@),
            TextNode::Function(text) => TextNodeView::Function(text@),
            TextNode::Constant(text) => TextNodeView::Constant(text@),
            TextNode::Parameter(text) => TextNodeView::Parameter(text@),
            TextNode::Classname(text) => TextNodeView::Classname(text@),
            TextNode::InterfaceName(text) => TextNodeView::InterfaceName(text@),
            TextNode::Literal(text) => TextNodeView::Literal(text@),
            TextNode::Filename(text) => TextNodeView::Filename(text@),
            TextNode::Type(hint) => TextNodeView::Type(hint@),
            TextNode::Code(text) => TextNodeView::Code(text@),
            TextNode::Link(text) => TextNodeView::Link(text@),
            TextNode::Note(text) => TextNodeView::Note(text@),
            TextNode::Inset(text) => TextNodeView::Inset(text@),
            TextNode::HtmlTag(text) => TextNodeView::HtmlTag(text@),
            TextNode::InlineCode(text) => TextNodeView::InlineCode(text@),
            TextNode::InlinePhpCode(text) => TextNodeView::InlinePhpCode(text@),
            TextNode::MethodName(text) => TextNodeView::MethodName(text@),
            TextNode::Table(text) => TextNodeView::Table(text@),
            TextNode::Xref(text) => TextNodeView::Xref(text@),
            TextNode::Warning(text) => TextNodeView::Warning(text@),
            TextNode::Placeholder => TextNodeView::Placeholder,
        }
    }
}

impl TextNodeView {
    /// How the piece is written out: its text as it is, and a type as the type is written. A
    /// placeholder holds nothing to write.
    pub open spec fn text(self) -> Seq<char> {
        match self {
            TextNodeView::Text(text) => text,
            TextNodeView::BoldText(text) => text,
            TextNodeView::ItalicText(text) => text,
            TextNodeView::Subtitle(text) => text,
            TextNodeView::Function(text) => text,
            TextNodeView::Constant(text) => text,
            TextNodeView::Parameter(text) => text,
            TextNodeView::Classname(text) => text,
            TextNodeView::InterfaceName(text) => text,
            TextNodeView::Literal(text) => text,
            TextNodeView::Filename(text) => text,
            TextNodeView::Type(hint) => hint.text(),
            TextNodeView::Code(text) => text,
            TextNodeView::Link(text) => text,
            TextNodeView::Note(text) => text,
            TextNodeView::Inset(text) => text,
            TextNodeView::HtmlTag(text) => text,
            TextNodeView::InlineCode(text) => text,
            TextNodeView::InlinePhpCode(text) => text,
            TextNodeView::MethodName(text) => text,
            TextNodeView::Table(text) => text,
            TextNodeView::Xref(text) => text,
            TextNodeView::Warning(text) => text,
            TextNodeView::Placeholder => Seq::empty(),
        }
    }
}

/// The text that stands for the marker of a function that gives `false` when it fails,
/// whatever the marker itself holds.
pub open spec fn false_on_failure() -> Seq<char> {
    "false on failure"@
}

/// The text that stands for the marker of a function that gives `true` when it succeeds and
/// `false` when it fails, whatever the marker itself holds.
pub open spec fn true_on_success() -> Seq<char> {
    "Returns true on success or false on failure"@
}

/// The text that stands for the marker of a function without documentation.
pub open spec fn undocumented_warning() -> Seq<char> {
    "This function is currently not documented; only its argument list is available."@
}

/// The piece that one child node of a paragraph compiles to. The node's name picks the rule;
/// an `emphasis` is bold with the role `bold`, italic without a role, and has no rule with
/// any other role. A node that no rule names is a placeholder if it is an entity reference,
/// and is refused otherwise.
pub open spec fn compiled(node: MarkupNodeView) -> Result<TextNodeView, XmlErrorView> {
    let name = node.name;
    let content = node.content;
    let role = attribute_value(node.attributes, "role"@);
    if name == "text"@ {
        Ok(TextNodeView::Text(content))
    } else if name == "function"@ {
        Ok(TextNodeView::Function(content))
    } else if name == "constant"@ {
        Ok(TextNodeView::Constant(content))
    } else if name == "parameter"@ {
        Ok(TextNodeView::Parameter(content))
    } else if name == "varname"@ {
        Ok(TextNodeView::Parameter(content))
    } else if name == "classname"@ {
        Ok(TextNodeView::Classname(content))
    } else if name == "interfacename"@ {
        Ok(TextNodeView::InterfaceName(content))
    } else if name == "literal"@ {
        Ok(TextNodeView::Literal(content))
    } else if name == "filename"@ {
        Ok(TextNodeView::Filename(content))
    } else if name == "type"@ {
        match resolved(node) {
            Ok(hint) => Ok(TextNodeView::Type(hint)),
            Err(error) => Err(error),
        }
    } else if name == "programlisting"@ {
        Ok(TextNodeView::Code(content))
    } else if name == "link"@ {
        Ok(TextNodeView::Link(content))
    } else if name == "methodname"@ {
        Ok(TextNodeView::MethodName(content))
    } else if name == "table"@ {
        Ok(TextNodeView::Table(content))
    } else if name == "xref"@ {
        Ok(TextNodeView::Xref(
            match attribute_value(node.attributes, "linkend"@) {
                Some(target) => target,
                None => Seq::empty(),
            },
        ))
    } else if name == "return.falseforfailure"@ {
        Ok(TextNodeView::Text(false_on_failure()))
    } else if name == "return.success"@ {
        Ok(TextNodeView::Text(true_on_success()))
    } else if name == "emphasis"@ && role == Some("bold"@) {
        Ok(TextNodeView::BoldText(content))
    } else if name == "command"@ {
        Ok(TextNodeView::BoldText(content))
    } else if name == "emphasis"@ && role is None {
        Ok(TextNodeView::ItalicText(content))
    } else if name == "itemizedlist"@ {
        Ok(TextNodeView::Text(content))
    } else if name == "simplelist"@ {
        Ok(TextNodeView::Text(content))
    } else if name == "acronym"@ {
        Ok(TextNodeView::Text(content))
    } else if name == "abbrev"@ {
        Ok(TextNodeView::Text(content))
    } else if name == "style.oop"@ {
        Ok(TextNodeView::Subtitle(content))
    } else if name == "style.procedural"@ {
        Ok(TextNodeView::Subtitle(content))
    } else if name == "note"@ {
        Ok(TextNodeView::Note(content))
    } else if name == "screen"@ {
        Ok(TextNodeView::Inset(content))
    } else if name == "tag"@ {
        Ok(TextNodeView::HtmlTag(content))
    } else if name == "php.ini"@ {
        Ok(TextNodeView::InlineCode("php.ini"@))
    } else if name == "code"@ {
        Ok(TextNodeView::InlinePhpCode(content))
    } else if name == "userinput"@ {
        Ok(TextNodeView::InlinePhpCode(content))
    } else if name == "quote"@ {
        Ok(TextNodeView::ItalicText("\""@ + content + "\""@))
    } else if name == "superscript"@ {
        Ok(TextNodeView::ItalicText("^"@ + content))
    } else if name == "subscript"@ {
        Ok(TextNodeView::ItalicText("\u{22c1}"@ + content))
    } else if name == "warn.undocumented.func"@ {
        Ok(TextNodeView::Warning(undocumented_warning()))
    } else if name == "methodsynopsis"@ {
        Ok(TextNodeView::Placeholder)
    } else if node.kind == NodeKind::EntityReference {
        Ok(TextNodeView::Placeholder)
    } else {
        Err(XmlErrorView::UnhandledMarkup(name))
    }
}

/// The lengths of the names that have a rule, and the first letter of those that are as long
/// as `emphasis` or as the success marker: enough to tell `emphasis` and the two markers from
/// every name before them.
proof fn lemma_rule_names()
    ensures
        "text"@.len() == 4,
        "function"@.len() == 8,
        "function"@[0] == 'f',
        "constant"@.len() == 8,
        "constant"@[0] == 'c',
        "parameter"@.len() == 9,
        "varname"@.len() == 7,
        "classname"@.len() == 9,
        "interfacename"@.len() == 13,
        "literal"@.len() == 7,
        "filename"@.len() == 8,
        "filename"@[0] == 'f',
        "type"@.len() == 4,
        "programlisting"@.len() == 14,
        "programlisting"@[0] == 'p',
        "link"@.len() == 4,
        "methodname"@.len() == 10,
        "table"@.len() == 5,
        "xref"@.len() == 4,
        "return.falseforfailure"@.len() == 22,
        "return.success"@.len() == 14,
        "return.success"@[0] == 'r',
        "emphasis"@.len() == 8,
        "emphasis"@[0] == 'e',
        "command"@.len() == 7,
        "itemizedlist"@.len() == 12,
        "simplelist"@.len() == 10,
        "acronym"@.len() == 7,
        "abbrev"@.len() == 6,
        "style.oop"@.len() == 9,
        "style.procedural"@.len() == 16,
        "note"@.len() == 4,
        "screen"@.len() == 6,
        "tag"@.len() == 3,
        "php.ini"@.len() == 7,
        "code"@.len() == 4,
        "userinput"@.len() == 9,
        "quote"@.len() == 5,
        "superscript"@.len() == 11,
        "subscript"@.len() == 9,
        "warn.undocumented.func"@.len() == 22,
        "methodsynopsis"@.len() == 14,
{
    reveal_strlit("text");
    reveal_strlit("function");
    reveal_strlit("constant");
    reveal_strlit("parameter");
    reveal_strlit("varname");
    reveal_strlit("classname");
    reveal_strlit("interfacename");
    reveal_strlit("literal");
    reveal_strlit("filename");
    reveal_strlit("type");
    reveal_strlit("programlisting");
    reveal_strlit("link");
    reveal_strlit("methodname");
    reveal_strlit("table");
    reveal_strlit("xref");
    reveal_strlit("return.falseforfailure");
    reveal_strlit("return.success");
    reveal_strlit("emphasis");
    reveal_strlit("command");
    reveal_strlit("itemizedlist");
    reveal_strlit("simplelist");
    reveal_strlit("acronym");
    reveal_strlit("abbrev");
    reveal_strlit("style.oop");
    reveal_strlit("style.procedural");
    reveal_strlit("note");
    reveal_strlit("screen");
    reveal_strlit("tag");
    reveal_strlit("php.ini");
    reveal_strlit("code");
    reveal_strlit("userinput");
    reveal_strlit("quote");
    reveal_strlit("superscript");
    reveal_strlit("subscript");
    reveal_strlit("warn.undocumented.func");
    reveal_strlit("methodsynopsis");
}

/// The marker of a function that gives `false` when it fails compiles to one fixed text,
/// whatever the marker holds.
pub proof fn failure_marker_compiles_to_fixed_text(node: MarkupNodeView)
    requires
        node.name == "return.falseforfailure"@,
    ensures
        compiled(node) == Ok::<TextNodeView, XmlErrorView>(TextNodeView::Text(false_on_failure())),
{
    lemma_rule_names();
}

/// Whether a rule names `name`.
pub open spec fn has_rule(name: Seq<char>) -> bool {
    ||| name == "text"@
    ||| name == "function"@
    ||| name == "constant"@
    ||| name == "parameter"@
    ||| name == "varname"@
    ||| name == "classname"@
    ||| name == "interfacename"@
    ||| name == "literal"@
    ||| name == "filename"@
    ||| name == "type"@
    ||| name == "programlisting"@
    ||| name == "link"@
    ||| name == "methodname"@
    ||| name == "table"@
    ||| name == "xref"@
    ||| name == "return.falseforfailure"@
    ||| name == "return.success"@
    ||| name == "emphasis"@
    ||| name == "command"@
    ||| name == "itemizedlist"@
    ||| name == "simplelist"@
    ||| name == "acronym"@
    ||| name == "abbrev"@
    ||| name == "style.oop"@
    ||| name == "style.procedural"@
    ||| name == "note"@
    ||| name == "screen"@
    ||| name == "tag"@
    ||| name == "php.ini"@
    ||| name == "code"@
    ||| name == "userinput"@
    ||| name == "quote"@
    ||| name == "superscript"@
    ||| name == "subscript"@
    ||| name == "warn.undocumented.func"@
    ||| name == "methodsynopsis"@
}

/// The marker of a function that gives `true` when it succeeds compiles to one fixed text,
/// whatever the marker holds.
pub proof fn success_marker_compiles_to_fixed_text(node: MarkupNodeView)
    requires
        node.name == "return.success"@,
    ensures
        compiled(node) == Ok::<TextNodeView, XmlErrorView>(TextNodeView::Text(true_on_success())),
{
    lemma_rule_names();
}

/// A node that no rule names is refused by its name, unless it is an entity reference.
pub proof fn unknown_tag_is_refused(node: MarkupNodeView)
    requires
        !has_rule(node.name),
        node.kind != NodeKind::EntityReference,
    ensures
        compiled(node) == Err::<TextNodeView, XmlErrorView>(
            XmlErrorView::UnhandledMarkup(node.name),
        ),
{
}

/// An entity reference that no rule names is a placeholder.
pub proof fn unknown_entity_is_a_placeholder(node: MarkupNodeView)
    requires
        !has_rule(node.name),
        node.kind == NodeKind::EntityReference,
    ensures
        compiled(node) == Ok::<TextNodeView, XmlErrorView>(TextNodeView::Placeholder),
{
}

/// An emphasis with the role `bold` compiles to bold text and one without a role to italic
/// text, each with the text of the node. With any other role it is refused, unless the node
/// is an entity reference, which then is a placeholder like every entity reference that no
/// rule names.
pub proof fn emphasis_goes_by_its_role(node: MarkupNodeView)
    requires
        node.name == "emphasis"@,
    ensures
        attribute_value(node.attributes, "role"@) == Some("bold"@) ==> compiled(node) == Ok::<
            TextNodeView,
            XmlErrorView,
        >(TextNodeView::BoldText(node.content)),
        attribute_value(node.attributes, "role"@) is None ==> compiled(node) == Ok::<
            TextNodeView,
            XmlErrorView,
        >(TextNodeView::ItalicText(node.content)),
        attribute_value(node.attributes, "role"@) is Some && attribute_value(
            node.attributes,
            "role"@,
        ) != Some("bold"@) && node.kind != NodeKind::EntityReference ==> compiled(node) == Err::<
            TextNodeView,
            XmlErrorView,
        >(XmlErrorView::UnhandledMarkup("emphasis"@)),
{
    lemma_rule_names();
}

/// What the first `upto` nodes of `nodes` compile to, in order, or the failure of the first of
/// them that cannot be compiled.
pub open spec fn compiled_prefix(nodes: Seq<MarkupNodeView>, upto: int) -> Result<
    Seq<TextNodeView>,
    XmlErrorView,
>
    decreases upto,
{
    if upto <= 0 || upto > nodes.len() {
        Ok(Seq::empty())
    } else {
        match compiled_prefix(nodes, upto - 1) {
            Err(error) => Err(error),
            Ok(before) => match compiled(nodes[upto - 1]) {
                Err(error) => Err(error),
                Ok(piece) => Ok(before.push(piece)),
            },
        }
    }
}

/// The description that a paragraph compiles to: one piece for each of its child nodes, in
/// reading order. Without a paragraph the description is empty.
pub open spec fn description_of(paragraph: Option<MarkupNodeView>) -> Result<
    Seq<TextNodeView>,
    XmlErrorView,
> {
    match paragraph {
        None => Ok(Seq::empty()),
        Some(node) => compiled_prefix(node.children, node.children.len() as int),
    }
}

/// Once a node cannot be compiled, looking at more nodes does not change the failure.
proof fn lemma_compiled_failure_stays(nodes: Seq<MarkupNodeView>, failed: int, upto: int)
    requires
        compiled_prefix(nodes, failed) is Err,
        failed <= upto <= nodes.len(),
    ensures
        compiled_prefix(nodes, upto) == compiled_prefix(nodes, failed),
    decreases upto - failed,
{
    if failed < upto {
        lemma_compiled_failure_stays(nodes, failed, upto - 1);
    }
}

/// The mathematical value of every piece of `pieces`, in order.
pub open spec fn piece_views(pieces: Seq<TextNode>) -> Seq<TextNodeView> {
    Seq::new(pieces.len(), |i: int| pieces[i]@)
}

impl TextNode {
    /// Compiles one child node of a paragraph. See [`compiled`].
    pub fn compile(node: &MarkupNode) -> (piece: Result<TextNode, XmlError>)
        ensures
            outcome_view(piece) == compiled(node@),
    {
        proof {
            lemma_node_view(node);
        }
        let name = node.name.as_str();
        let role = node.attribute("role");
        let bold = match role {
            Some(value) => str_equal(value.as_str(), "bold"),
            None => false,
        };
        if str_equal(name, "text") {
            Ok(TextNode::Text(node.content.clone()))
        } else if str_equal(name, "function") {
            Ok(TextNode::Function(node.content.clone()))
        } else if str_equal(name, "constant") {
            Ok(TextNode::Constant(node.content.clone()))
        } else if str_equal(name, "parameter") {
            Ok(TextNode::Parameter(node.content.clone()))
        } else if str_equal(name, "varname") {
            Ok(TextNode::Parameter(node.content.clone()))
        } else if str_equal(name, "classname") {
            Ok(TextNode::Classname(node.content.clone()))
        } else if str_equal(name, "interfacename") {
            Ok(TextNode::InterfaceName(node.content.clone()))
        } else if str_equal(name, "literal") {
            Ok(TextNode::Literal(node.content.clone()))
        } else if str_equal(name, "filename") {
            Ok(TextNode::Filename(node.content.clone()))
        } else if str_equal(name, "type") {
            match TypeHint::from(node) {
                Ok(hint) => Ok(TextNode::Type(hint)),
                Err(error) => Err(error),
            }
        } else if str_equal(name, "programlisting") {
            Ok(TextNode::Code(node.content.clone()))
        } else if str_equal(name, "link") {
            Ok(TextNode::Link(node.content.clone()))
        } else if str_equal(name, "methodname") {
            Ok(TextNode::MethodName(node.content.clone()))
        } else if str_equal(name, "table") {
            Ok(TextNode::Table(node.content.clone()))
        } else if str_equal(name, "xref") {
            match node.attribute("linkend") {
                Some(target) => Ok(TextNode::Xref(target.clone())),
                None => Ok(TextNode::Xref(String::new())),
            }
        } else if str_equal(name, "return.falseforfailure") {
            Ok(TextNode::Text("false on failure".to_owned()))
        } else if str_equal(name, "return.success") {
            Ok(TextNode::Text("Returns true on success or false on failure".to_owned()))
        } else if str_equal(name, "emphasis") && bold {
            Ok(TextNode::BoldText(node.content.clone()))
        } else if str_equal(name, "command") {
            Ok(TextNode::BoldText(node.content.clone()))
        } else if str_equal(name, "emphasis") && role.is_none() {
            Ok(TextNode::ItalicText(node.content.clone()))
        } else if str_equal(name, "itemizedlist") {
            Ok(TextNode::Text(node.content.clone()))
        } else if str_equal(name, "simplelist") {
            Ok(TextNode::Text(node.content.clone()))
        } else if str_equal(name, "acronym") {
            Ok(TextNode::Text(node.content.clone()))
        } else if str_equal(name, "abbrev") {
            Ok(TextNode::Text(node.content.clone()))
        } else if str_equal(name, "style.oop") {
            Ok(TextNode::Subtitle(node.content.clone()))
        } else if str_equal(name, "style.procedural") {
            Ok(TextNode::Subtitle(node.content.clone()))
        } else if str_equal(name, "note") {
            Ok(TextNode::Note(node.content.clone()))
        } else if str_equal(name, "screen") {
            Ok(TextNode::Inset(node.content.clone()))
        } else if str_equal(name, "tag") {
            Ok(TextNode::HtmlTag(node.content.clone()))
        } else if str_equal(name, "php.ini") {
            Ok(TextNode::InlineCode("php.ini".to_owned()))
        } else if str_equal(name, "code") {
            Ok(TextNode::InlinePhpCode(node.content.clone()))
        } else if str_equal(name, "userinput") {
            Ok(TextNode::InlinePhpCode(node.content.clone()))
        } else if str_equal(name, "quote") {
            Ok(TextNode::ItalicText("\"".to_owned().concat(node.content.as_str()).concat("\"")))
        } else if str_equal(name, "superscript") {
            Ok(TextNode::ItalicText("^".to_owned().concat(node.content.as_str())))
        } else if str_equal(name, "subscript") {
            Ok(TextNode::ItalicText("\u{22c1}".to_owned().concat(node.content.as_str())))
        } else if str_equal(name, "warn.undocumented.func") {
            Ok(TextNode::Warning(
                "This function is currently not documented; only its argument list is available.".to_owned(),
            ))
        } else if str_equal(name, "methodsynopsis") {
            Ok(TextNode::Placeholder)
        } else if node.kind == NodeKind::EntityReference {
            Ok(TextNode::Placeholder)
        } else {
            Err(XmlError::UnhandledMarkup(node.name.clone()))
        }
    }

    /// Compiles a description from its paragraph. See [`description_of`].
    pub fn compile_description(paragraph: Option<&MarkupNode>) -> (description: Result<
        Vec<TextNode>,
        XmlError,
    >)
        ensures
            match description {
                Ok(pieces) => description_of(
                    match paragraph {
                        Some(node) => Some(node@),
                        None => None,
                    },
                ) == Ok::<Seq<TextNodeView>, XmlErrorView>(piece_views(pieces@)),
                Err(error) => description_of(
                    match paragraph {
                        Some(node) => Some(node@),
                        None => None,
                    },
                ) == Err::<Seq<TextNodeView>, XmlErrorView>(error@),
            },
    {
        let mut pieces: Vec<TextNode> = Vec::new();
        assert(piece_views(pieces@) =~= Seq::empty());
        let node = match paragraph {
            Some(node) => node,
            None => {
                return Ok(pieces);
            },
        };
        proof {
            lemma_node_view(node);
        }
        let mut i: usize = 0;
        while i < node.children.len()
            invariant
                i <= node.children.len(),
                paragraph == Some(node),
                node@.children.len() == node.children@.len(),
                forall|k: int|
                    0 <= k < node.children@.len() ==> node@.children[k] == node.children@[k]@,
                compiled_prefix(node@.children, i as int) == Ok::<Seq<TextNodeView>, XmlErrorView>(
                    piece_views(pieces@),
                ),
            decreases node.children.len() - i,
        {
            match TextNode::compile(&node.children[i]) {
                Ok(piece) => {
                    proof {
                        assert(piece_views(pieces@.push(piece)) =~= piece_views(pieces@).push(
                            piece@,
                        ));
                    }
                    pieces.push(piece);
                },
                Err(error) => {
                    proof {
                        lemma_compiled_failure_stays(
                            node@.children,
                            i + 1,
                            node@.children.len() as int,
                        );
                    }
                    return Err(error);
                },
            }
            i += 1;
        }
        Ok(pieces)
    }
}

impl TextNode {
    /// Writes the piece out. See [`TextNodeView::text`].
    pub fn to_string(&self) -> (text: String)
        ensures
            text@ == self@.text(),
    {
        match self {
            TextNode::Text(text) => text.clone(),
            TextNode::BoldText(text) => text.clone(),
            TextNode::ItalicText(text) => text.clone(),
            TextNode::Subtitle(text) => text.clone(),
            TextNode::Function(text) => text.clone(),
            TextNode::Constant(text) => text.clone(),
            TextNode::Parameter(text) => text.clone(),
            TextNode::Classname(text) => text.clone(),
            TextNode::InterfaceName(text) => text.clone(),
            TextNode::Literal(text) => text.clone(),
            TextNode::Filename(text) => text.clone(),
            TextNode::Type(hint) => hint.to_string(),
            TextNode::Code(text) => text.clone(),
            TextNode::Link(text) => text.clone(),
            TextNode::Note(text) => text.clone(),
            TextNode::Inset(text) => text.clone(),
            TextNode::HtmlTag(text) => text.clone(),
            TextNode::InlineCode(text) => text.clone(),
            TextNode::InlinePhpCode(text) => text.clone(),
            TextNode::MethodName(text) => text.clone(),
            TextNode::Table(text) => text.clone(),
            TextNode::Xref(text) => text.clone(),
            TextNode::Warning(text) => text.clone(),
            TextNode::Placeholder => String::new(),
        }
    }
}

} // verus!
