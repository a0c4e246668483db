//! A plain-value model of the part of a parsed markup tree that the converter reads.

use vstd::prelude::*;
use vstd::string::StringExecFns;
use crate::strings::str_equal;

verus! {

/// The kinds of tree node that the converter tells apart.
#[derive(Clone, Copy, Debug, PartialEq, Eq, Structural)]
pub enum NodeKind {
    /// An element, such as `<type>`.
    Element,
    /// A run of character data.
    Text,
    /// A reference to a named entity that the parser left unexpanded.
    EntityReference,
    /// Any other node: a comment, a processing instruction, a CDATA section, ...
    Other,
}

/// One attribute of an element.
#[derive(Clone, Debug, PartialEq, Eq)]
pub struct Attribute {
    pub name: String,
    pub value: String,
}

/// One node of a markup tree, with the children that belong to it.
#[derive(Debug, PartialEq, Eq)]
pub struct MarkupNode {
    pub kind: NodeKind,
    /// The tag name of an element, the entity name of an entity reference, `text` for character
    /// data.
    pub name: String,
    /// The text content of the node and of everything below it.
    pub content: String,
    pub attributes: Vec<Attribute>,
    /// The child nodes in document order.
    pub children: Vec<MarkupNode>,
}

/// The mathematical value of an [`Attribute`].
pub struct AttributeView {
    pub name: Seq<char>,
    pub value: Seq<char>,
}

/// The mathematical value of a [`MarkupNode`].
pub struct MarkupNodeView {
    pub kind: NodeKind,
    pub name: Seq<char>,
    pub content: Seq<char>,
    pub attributes: Seq<AttributeView>,
    pub children: Seq<MarkupNodeView>,
}

impl View for Attribute {
    type V = AttributeView;

    open spec fn view(&self) -> AttributeView {
        AttributeView { name: self.name@, value: self.value@ }
    }
}

/// The mathematical value of `node`: its own fields and, in order, the values of its children.
pub open spec fn node_view(node: MarkupNode) -> MarkupNodeView
    decreases node,
{
    MarkupNodeView {
        kind: node.kind,
        name: node.name@,
        content: node.content@,
        attributes: Seq::new(node.attributes@.len(), |i: int| node.attributes@[i]@),
        children: Seq::new(
            node.children@.len(),
            |i: int|
                if 0 <= i < node.children@.len() {
                    node_view(node.children@[i])
                } else {
                    arbitrary()
                },
        ),
    }
}

impl View for MarkupNode {
    type V = MarkupNodeView;

    open spec fn view(&self) -> MarkupNodeView {
        node_view(*self)
    }
}

/// The mathematical value of every node of `nodes`, in order.
pub open spec fn node_views(nodes: Seq<MarkupNode>) -> Seq<MarkupNodeView> {
    Seq::new(nodes.len(), |i: int| nodes[i]@)
}

/// How the value of a node is made of the values of its fields.
pub proof fn lemma_node_view(node: &MarkupNode)
    ensures
        node@.kind == node.kind,
        node@.name == node.name@,
        node@.content == node.content@,
        node@.attributes.len() == node.attributes@.len(),
        forall|i: int|
            0 <= i < node.attributes@.len() ==> node@.attributes[i] == node.attributes@[i]@,
        node@.children.len() == node.children@.len(),
        forall|i: int| 0 <= i < node.children@.len() ==> node@.children[i] == node.children@[i]@,
{
    assert(node@.children.len() == node.children@.len());
}

/// The value of the first attribute called `name`, if there is one.
pub open spec fn attribute_value(attributes: Seq<AttributeView>, name: Seq<char>) -> Option<
    Seq<char>,
>
    decreases attributes.len(),
{
    if attributes.len() == 0 {
        None
    } else if attributes[0].name == name {
        Some(attributes[0].value)
    } else {
        attribute_value(attributes.drop_first(), name)
    }
}

impl Clone for MarkupNode {
    fn clone(&self) -> (copy: Self)
        ensures
            copy@ == self@,
        decreases self,
    {
        proof {
            lemma_node_view(self);
        }
        let mut attributes: Vec<Attribute> = Vec::new();
        let mut i: usize = 0;
        while i < self.attributes.len()
            invariant
                i <= self.attributes.len(),
                attributes.len() == i,
                forall|k: int| 0 <= k < i ==> attributes@[k]@ == self.attributes@[k]@,
            decreases self.attributes.len() - i,
        {
            let attribute = &self.attributes[i];
            attributes.push(
                Attribute { name: attribute.name.clone(), value: attribute.value.clone() },
            );
            i += 1;
        }
        let mut children: Vec<MarkupNode> = Vec::new();
        let mut j: usize = 0;
        while j < self.children.len()
            invariant
                j <= self.children.len(),
                children.len() == j,
                forall|k: int| 0 <= k < j ==> children@[k]@ == self.children@[k]@,
            decreases self.children.len() - j,
        {
            children.push(self.children[j].clone());
            j += 1;
        }
        let copy = MarkupNode {
            kind: self.kind,
            name: self.name.clone(),
            content: self.content.clone(),
            attributes,
            children,
        };
        proof {
            lemma_node_view(&copy);
            assert(copy@.attributes =~= self@.attributes);
            assert(copy@.children =~= self@.children);
        }
        copy
    }
}

impl MarkupNode {
    /// An element called `name`, as yet without attributes, children or text.
    pub fn element(name: &str) -> (node: MarkupNode)
        ensures
            node@ == (MarkupNodeView {
                kind: NodeKind::Element,
                name: name@,
                content: Seq::empty(),
                attributes: Seq::empty(),
                children: Seq::empty(),
            }),
    {
        let node = MarkupNode {
            kind: NodeKind::Element,
            name: name.to_owned(),
            content: String::new(),
            attributes: Vec::new(),
            children: Vec::new(),
        };
        assert(node@.attributes =~= Seq::empty());
        assert(node@.children =~= Seq::empty());
        node
    }

    /// Character data that holds `content`. Its name is `text`, as the parser names it.
    pub fn text(content: &str) -> (node: MarkupNode)
        ensures
            node@ == (MarkupNodeView {
                kind: NodeKind::Text,
                name: "text"@,
                content: content@,
                attributes: Seq::empty(),
                children: Seq::empty(),
            }),
    {
        let node = MarkupNode {
            kind: NodeKind::Text,
            name: "text".to_owned(),
            content: content.to_owned(),
            attributes: Vec::new(),
            children: Vec::new(),
        };
        assert(node@.attributes =~= Seq::empty());
        assert(node@.children =~= Seq::empty());
        node
    }

    /// A reference to the entity called `name`, which holds no text.
    pub fn entity_reference(name: &str) -> (node: MarkupNode)
        ensures
            node@ == (MarkupNodeView {
                kind: NodeKind::EntityReference,
                name: name@,
                content: Seq::empty(),
                attributes: Seq::empty(),
                children: Seq::empty(),
            }),
    {
        let node = MarkupNode {
            kind: NodeKind::EntityReference,
            name: name.to_owned(),
            content: String::new(),
            attributes: Vec::new(),
            children: Vec::new(),
        };
        assert(node@.attributes =~= Seq::empty());
        assert(node@.children =~= Seq::empty());
        node
    }

    /// The node with one more attribute behind those it has.
    pub fn with_attribute(self, name: &str, value: &str) -> (node: MarkupNode)
        ensures
            node@ == (MarkupNodeView {
                attributes: self@.attributes.push(AttributeView { name: name@, value: value@ }),
                ..self@
            }),
    {
        proof {
            lemma_node_view(&self);
        }
        let mut node = self;
        node.attributes.push(Attribute { name: name.to_owned(), value: value.to_owned() });
        proof {
            lemma_node_view(&node);
            assert(node@.attributes =~= self@.attributes.push(
                AttributeView { name: name@, value: value@ },
            ));
            assert(node@.children =~= self@.children);
        }
        node
    }

    /// The node with one more child behind those it has. The text of the child is added to
    /// the text of the node, as the text of an element is the text of all that is in it.
    pub fn with_child(self, child: MarkupNode) -> (node: MarkupNode)
        ensures
            node@ == (MarkupNodeView {
                content: self@.content + child@.content,
                children: self@.children.push(child@),
                ..self@
            }),
    {
        proof {
            lemma_node_view(&self);
            lemma_node_view(&child);
        }
        let mut node = self;
        node.content.append(child.content.as_str());
        node.children.push(child);
        proof {
            lemma_node_view(&node);
            assert(node@.attributes =~= self@.attributes);
            assert(node@.children =~= self@.children.push(child@));
        }
        node
    }

    /// The value of the attribute called `name`, if the node has one.
    pub fn attribute(&self, name: &str) -> (value: Option<&String>)
        ensures
            match value {
                Some(v) => attribute_value(self@.attributes, name@) == Some(v@),
                None => attribute_value(self@.attributes, name@) is None,
            },
    {
        let mut i: usize = 0;
        assert(self@.attributes.skip(0) =~= self@.attributes);
        while i < self.attributes.len()
            invariant
                i <= self.attributes.len(),
                attribute_value(self@.attributes, name@) == attribute_value(
                    self@.attributes.skip(i as int),
                    name@,
                ),
            decreases self.attributes.len() - i,
        {
            if str_equal(self.attributes[i].name.as_str(), name) {
                return Some(&self.attributes[i].value);
            }
            assert(self@.attributes.skip(i as int).drop_first() =~= self@.attributes.skip(i + 1));
            i += 1;
        }
        None
    }
}

} // verus!
