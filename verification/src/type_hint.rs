//! Type hints: a single named type, or a union of alternatives, and how a type element of the
//! markup is read as one.

use vstd::prelude::*;
use vstd::string::StringExecFns;
use crate::error::{outcome_view, XmlError, XmlErrorView};
use crate::markup::{MarkupNode, MarkupNodeView, NodeKind};
use crate::strings::{joined, lemma_joined_append};

verus! {

/// The type of a parameter or of a return value.
#[derive(Debug, PartialEq, Eq, PartialOrd, Ord)]
pub enum TypeHint {
    /// One type, by its name as written in the source.
    Regular(String),
    /// Two or more alternatives.
    Union(UnionTypeHint),
}

/// Two alternatives side by side; either side may itself be a union.
#[derive(Debug, PartialEq, Eq, PartialOrd, Ord)]
pub struct UnionTypeHint {
    pub left: Box<TypeHint>,
    pub right: Box<TypeHint>,
}

/// The mathematical value of a [`TypeHint`].
pub enum TypeHintView {
    Regular(Seq<char>),
    Union(Box<TypeHintView>, Box<TypeHintView>),
}

impl View for TypeHint {
    type V = TypeHintView;

    open spec fn view(&self) -> TypeHintView
        decreases self,
    {
        match self {
            TypeHint::Regular(name) => TypeHintView::Regular(name@),
            TypeHint::Union(union) => TypeHintView::Union(
                Box::new((*union.left).view()),
                Box::new((*union.right).view()),
            ),
        }
    }
}

impl View for UnionTypeHint {
    type V = TypeHintView;

    open spec fn view(&self) -> TypeHintView {
        TypeHintView::Union(Box::new((*self.left).view()), Box::new((*self.right).view()))
    }
}

/// The name that stands for a type that the source does not give.
pub open spec fn implicit_type() -> TypeHintView {
    TypeHintView::Regular("mixed"@)
}

impl TypeHintView {
    /// How the hint is written: the names of its alternatives from left to right, with `|`
    /// between them.
    pub open spec fn text(self) -> Seq<char>
        decreases self,
    {
        match self {
            TypeHintView::Regular(name) => name,
            TypeHintView::Union(left, right) => left.text() + "|"@ + right.text(),
        }
    }

    /// The names of the alternatives from left to right; one name for a regular hint.
    pub open spec fn members(self) -> Seq<Seq<char>>
        decreases self,
    {
        match self {
            TypeHintView::Regular(name) => seq![name],
            TypeHintView::Union(left, right) => left.members() + right.members(),
        }
    }
}

/// The hints of `alternatives` combined from left to right: the first two make a union, and
/// each one after that becomes the right side of a union whose left side is all before it.
pub open spec fn chained(alternatives: Seq<TypeHintView>) -> TypeHintView
    recommends
        alternatives.len() >= 1,
    decreases alternatives.len(),
{
    if alternatives.len() <= 1 {
        alternatives[0]
    } else {
        TypeHintView::Union(
            Box::new(chained(alternatives.drop_last())),
            Box::new(alternatives.last()),
        )
    }
}

/// The union of two or more alternatives: the first one on the left, and on the right the
/// others, chained from left to right.
pub open spec fn union_of(alternatives: Seq<TypeHintView>) -> TypeHintView
    recommends
        alternatives.len() >= 2,
{
    TypeHintView::Union(Box::new(alternatives[0]), Box::new(chained(alternatives.skip(1))))
}

/// The part that is named when a type element holds a single nested element: a union needs two.
pub open spec fn union_part() -> Seq<char> {
    "union type"@
}

/// What the first `upto` children of a type element declare: the hint of each child element
/// among them, in document order, or the failure of the first of them that cannot be read.
pub open spec fn alternatives_of(node: MarkupNodeView, upto: int) -> Result<
    Seq<TypeHintView>,
    XmlErrorView,
>
    decreases node, 0int, upto,
{
    if upto <= 0 || upto > node.children.len() {
        Ok(Seq::empty())
    } else {
        match alternatives_of(node, upto - 1) {
            Err(error) => Err(error),
            Ok(before) => {
                let child = node.children[upto - 1];
                if child.kind != NodeKind::Element {
                    Ok(before)
                } else {
                    match resolved(child) {
                        Err(error) => Err(error),
                        Ok(hint) => Ok(before.push(hint)),
                    }
                }
            },
        }
    }
}

/// The hint that a type element stands for. Without child elements it is the regular hint
/// named by the element's text. With two or more it is the union of what they stand for, in
/// document order. A single child element is no union, and is refused.
pub open spec fn resolved(node: MarkupNodeView) -> Result<TypeHintView, XmlErrorView>
    decreases node, 1int, 0int,
{
    match alternatives_of(node, node.children.len() as int) {
        Err(error) => Err(error),
        Ok(alternatives) => {
            if alternatives.len() == 0 {
                Ok(TypeHintView::Regular(node.content))
            } else if alternatives.len() == 1 {
                Err(XmlErrorView::MalformedXmlDefinition(union_part()))
            } else {
                Ok(union_of(alternatives))
            }
        },
    }
}

/// Once a child element cannot be read, looking at more children does not change the failure.
proof fn lemma_alternatives_failure_stays(node: MarkupNodeView, failed: int, upto: int)
    requires
        alternatives_of(node, failed) is Err,
        failed <= upto <= node.children.len(),
    ensures
        alternatives_of(node, upto) == alternatives_of(node, failed),
    decreases upto - failed,
{
    if failed < upto {
        lemma_alternatives_failure_stays(node, failed, upto - 1);
    }
}

/// How each hint of `alternatives` is written.
pub open spec fn texts_of(alternatives: Seq<TypeHintView>) -> Seq<Seq<char>> {
    Seq::new(alternatives.len(), |i: int| alternatives[i].text())
}

/// A hint is written as the names of its alternatives, in their order, with `|` between them.
pub proof fn text_joins_members(hint: TypeHintView)
    ensures
        hint.members().len() >= 1,
        hint.text() == joined(hint.members(), "|"@),
    decreases hint,
{
    match hint {
        TypeHintView::Regular(name) => {},
        TypeHintView::Union(left, right) => {
            text_joins_members(*left);
            text_joins_members(*right);
            lemma_joined_append(left.members(), right.members(), "|"@);
        },
    }
}

/// A chain of hints is written as the hints in list order, with `|` between them.
pub proof fn lemma_chained_text(alternatives: Seq<TypeHintView>)
    requires
        alternatives.len() >= 1,
    ensures
        chained(alternatives).text() == joined(texts_of(alternatives), "|"@),
    decreases alternatives.len(),
{
    if alternatives.len() > 1 {
        lemma_chained_text(alternatives.drop_last());
        assert(texts_of(alternatives).drop_last() =~= texts_of(alternatives.drop_last()));
    }
}

/// Writing out a union keeps the order of its alternatives: the union of `A`, `B` and `C` is
/// written `A|B|C`, whatever `A`, `B` and `C` are.
pub proof fn union_is_written_in_order(alternatives: Seq<TypeHintView>)
    requires
        alternatives.len() >= 2,
    ensures
        union_of(alternatives).text() == joined(texts_of(alternatives), "|"@),
{
    let rest = alternatives.skip(1);
    lemma_chained_text(rest);
    assert(texts_of(alternatives) =~= seq![alternatives[0].text()] + texts_of(rest));
    lemma_joined_append(seq![alternatives[0].text()], texts_of(rest), "|"@);
}

/// A type element with two or more child elements is written as what its child elements
/// stand for, in document order, with `|` between them.
pub proof fn resolved_union_is_written_in_order(node: MarkupNodeView)
    requires
        resolved(node) is Ok,
        alternatives_of(node, node.children.len() as int) matches Ok(alternatives)
            && alternatives.len() >= 2,
    ensures
        resolved(node)->Ok_0.text() == joined(
            texts_of(alternatives_of(node, node.children.len() as int)->Ok_0),
            "|"@,
        ),
{
    union_is_written_in_order(alternatives_of(node, node.children.len() as int)->Ok_0);
}

impl Default for TypeHint {
    /// The hint of a value whose type the source does not give: `mixed`.
    fn default() -> (hint: Self)
        ensures
            hint@ == implicit_type(),
    {
        TypeHint::Regular("mixed".to_owned())
    }
}

impl Clone for TypeHint {
    fn clone(&self) -> (copy: Self)
        ensures
            copy@ == self@,
        decreases self,
    {
        match self {
            TypeHint::Regular(name) => TypeHint::Regular(name.clone()),
            TypeHint::Union(union) => TypeHint::Union(union.clone()),
        }
    }
}

impl Clone for UnionTypeHint {
    fn clone(&self) -> (copy: Self)
        ensures
            copy@ == self@,
        decreases self,
    {
        UnionTypeHint {
            left: Box::new((*self.left).clone()),
            right: Box::new((*self.right).clone()),
        }
    }
}

impl TypeHint {
    /// Writes the hint out: a regular hint as its name, a union as its two sides with `|`
    /// between them.
    pub fn to_string(&self) -> (text: String)
        ensures
            text@ == self@.text(),
        decreases self,
    {
        match self {
            TypeHint::Regular(name) => name.clone(),
            TypeHint::Union(union) => union.to_string(),
        }
    }

    /// Reads a type element. See [`resolved`].
    pub fn from(node: &MarkupNode) -> (hint: Result<TypeHint, XmlError>)
        ensures
            outcome_view(hint) == resolved(node@),
        decreases node,
    {
        let mut alternatives: Vec<TypeHint> = Vec::new();
        let mut i: usize = 0;
        assert(hint_views(alternatives@) =~= Seq::empty());
        while i < node.children.len()
            invariant
                i <= node.children.len(),
                alternatives_of(node@, i as int) == Ok::<Seq<TypeHintView>, XmlErrorView>(
                    hint_views(alternatives@),
                ),
            decreases node.children.len() - i,
        {
            let child = &node.children[i];
            assert(node@.children[i as int] == child@);
            if child.kind == NodeKind::Element {
                match TypeHint::from(child) {
                    Ok(hint) => {
                        proof {
                            assert(hint_views(alternatives@.push(hint)) =~= hint_views(
                                alternatives@,
                            ).push(hint@));
                        }
                        alternatives.push(hint);
                    },
                    Err(error) => {
                        proof {
                            lemma_alternatives_failure_stays(
                                node@,
                                i + 1,
                                node@.children.len() as int,
                            );
                        }
                        return Err(error);
                    },
                }
            }
            i += 1;
        }
        if alternatives.len() == 0 {
            return Ok(TypeHint::Regular(node.content.clone()));
        }
        match TypeHint::union(alternatives) {
            Some(hint) => Ok(hint),
            None => Err(XmlError::MalformedXmlDefinition("union type")),
        }
    }

    /// The union of `alternatives`, which keeps their order; `None` where there are fewer than
    /// two of them.
    pub fn union(alternatives: Vec<TypeHint>) -> (hint: Option<TypeHint>)
        ensures
            alternatives.len() < 2 ==> hint is None,
            alternatives.len() >= 2 ==> hint is Some && hint->0@ == union_of(
                hint_views(alternatives@),
            ),
    {
        let mut rest = alternatives;
        if rest.len() < 2 {
            return None;
        }
        let ghost all = hint_views(rest@);
        let first = rest.remove(0);
        let mut right = rest.remove(0);
        assert(hint_views(rest@) =~= all.skip(2));
        assert(all.skip(1).take(1) =~= seq![right@]);
        let ghost mut done: int = 1;
        while rest.len() > 0
            invariant
                1 <= done <= all.len() - 1,
                rest.len() + done + 1 == all.len(),
                hint_views(rest@) == all.skip(done + 1),
                right@ == chained(all.skip(1).take(done)),
            decreases rest.len(),
        {
            let ghost before = rest@;
            let next = rest.remove(0);
            proof {
                assert forall|i: int| 0 <= i < rest@.len() implies hint_views(rest@)[i]
                    == all.skip(done + 2)[i] by {
                    assert(rest@[i] == before[i + 1]);
                    assert(hint_views(before)[i + 1] == all.skip(done + 1)[i + 1]);
                }
                let now = all.skip(1).take(done + 1);
                assert(now.drop_last() =~= all.skip(1).take(done));
                assert(now.last() == all[done + 1]);
                assert(all.skip(done + 1)[0] == next@);
                assert(hint_views(rest@) =~= all.skip(done + 2));
                done = done + 1;
            }
            right = TypeHint::Union(UnionTypeHint { left: Box::new(right), right: Box::new(next) });
        }
        assert(all.skip(1).take(done) =~= all.skip(1));
        Some(TypeHint::Union(UnionTypeHint { left: Box::new(first), right: Box::new(right) }))
    }
}

impl UnionTypeHint {
    /// Writes the union out: its left side, `|`, its right side.
    pub fn to_string(&self) -> (text: String)
        ensures
            text@ == self@.text(),
        decreases self,
    {
        let mut text = (*self.left).to_string();
        text.append("|");
        let right = (*self.right).to_string();
        text.append(right.as_str());
        text
    }
}

/// The mathematical value of every hint of `hints`, in order.
pub open spec fn hint_views(hints: Seq<TypeHint>) -> Seq<TypeHintView> {
    Seq::new(hints.len(), |i: int| hints[i]@)
}

} // verus!
