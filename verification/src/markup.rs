//! The SVG tree: a mathematical model of it, and the calls into the `svg`
//! crate that build the real thing.

use crate::text::{decimal_string, decimal_text};
use vstd::prelude::*;

verus! {

/// What an SVG node holds.
pub enum Markup {
    /// An element: its tag, its attributes by name, and its children in order.
    Element { tag: Seq<char>, attributes: Map<Seq<char>, Seq<char>>, children: Seq<Markup> },
    /// A run of text.
    Text { content: Seq<char> },
}

impl Markup {
    /// An element without attributes or children.
    pub open spec fn element(tag: Seq<char>) -> Markup {
        Markup::Element { tag, attributes: Map::empty(), children: Seq::empty() }
    }

    /// The element with one attribute set, replacing an earlier value of that name.
    pub open spec fn set(self, name: Seq<char>, value: Seq<char>) -> Markup {
        match self {
            Markup::Element { tag, attributes, children } => Markup::Element {
                tag,
                attributes: attributes.insert(name, value),
                children,
            },
            Markup::Text { content } => self,
        }
    }

    /// The element with one more child behind those it has.
    pub open spec fn add(self, child: Markup) -> Markup {
        match self {
            Markup::Element { tag, attributes, children } => Markup::Element {
                tag,
                attributes,
                children: children.push(child),
            },
            Markup::Text { content } => self,
        }
    }

    /// The element with a sequence of children added in order.
    pub open spec fn add_all(self, more: Seq<Markup>) -> Markup {
        match self {
            Markup::Element { tag, attributes, children } => Markup::Element {
                tag,
                attributes,
                children: children + more,
            },
            Markup::Text { content } => self,
        }
    }

    /// A run of text.
    pub open spec fn text(content: Seq<char>) -> Markup {
        Markup::Text { content }
    }
}

/// `svg::node::element::Element`, taken as it is: nothing is known of a
/// value but what the calls below say.
#[verifier::external_type_specification]
#[verifier::external_body]
pub struct ExElement(svg::node::element::Element);

/// `svg::node::element::SVG`, which `svg::Document` names, taken as it is.
#[verifier::external_type_specification]
#[verifier::external_body]
pub struct ExDocument(svg::node::element::SVG);

/// The tag, attributes and children that an element of the `svg` crate holds.
pub uninterp spec fn element_markup(element: svg::node::element::Element) -> Markup;

/// The tag, attributes and children that a document of the `svg` crate holds.
pub uninterp spec fn document_markup(document: svg::node::element::SVG) -> Markup;

/// `svg::node::element::Element::new`. Trusted: the new element carries the
/// given tag and has neither attributes nor children.
#[verifier::external_body]
pub(crate) fn new_element(tag: &str) -> (element: svg::node::element::Element)
    ensures
        element_markup(element) == Markup::element(tag@),
{
    svg::node::element::Element::new(tag)
}

/// `svg::node::Node::assign` on an element. Trusted: the attribute map gets
/// the value under the name, in place of any earlier one; tag and children
/// stay as they were.
#[verifier::external_body]
pub(crate) fn assign(element: &mut svg::node::element::Element, name: &str, value: &str)
    ensures
        element_markup(*final(element)) == element_markup(*old(element)).set(name@, value@),
{
    svg::node::Node::assign(element, name, value)
}

/// `svg::node::Node::append` on an element, with an element as the child.
/// Trusted: the child is pushed behind the children already there; tag and
/// attributes stay as they were.
#[verifier::external_body]
pub(crate) fn append(element: &mut svg::node::element::Element, child: svg::node::element::Element)
    ensures
        element_markup(*final(element)) == element_markup(*old(element)).add(
            element_markup(child),
        ),
{
    svg::node::Node::append(element, child)
}

/// `svg::node::Node::append` on an element, with an `svg::node::Text` made
/// from the content as the child. Trusted: a text node holding the content
/// unchanged is pushed behind the children already there.
#[verifier::external_body]
pub(crate) fn append_text(element: &mut svg::node::element::Element, content: &str)
    ensures
        element_markup(*final(element)) == element_markup(*old(element)).add(
            Markup::text(content@),
        ),
{
    svg::node::Node::append(element, svg::node::Text::new(content))
}

/// `svg::Document::new`. Trusted: the new document is an `svg` element whose
/// only attribute is the SVG namespace under `xmlns`, without children.
#[verifier::external_body]
pub(crate) fn new_document() -> (document: svg::node::element::SVG)
    ensures
        document_markup(document) == Markup::element("svg"@).set(
            "xmlns"@,
            "http://www.w3.org/2000/svg"@,
        ),
{
    svg::Document::new()
}

/// `svg::node::Node::assign` on a document. Trusted: as for an element.
#[verifier::external_body]
pub(crate) fn document_assign(document: &mut svg::node::element::SVG, name: &str, value: &str)
    ensures
        document_markup(*final(document)) == document_markup(*old(document)).set(name@, value@),
{
    svg::node::Node::assign(document, name, value)
}

/// `svg::node::Node::append` on a document, with an element as the child.
/// Trusted: as for an element.
#[verifier::external_body]
pub(crate) fn document_append(
    document: &mut svg::node::element::SVG,
    child: svg::node::element::Element,
)
    ensures
        document_markup(*final(document)) == document_markup(*old(document)).add(
            element_markup(child),
        ),
{
    svg::node::Node::append(document, child)
}

/// Adding children one by one is adding them all at once.
pub proof fn lemma_add_all_step(base: Markup, done: Seq<Markup>, next: Markup)
    ensures
        base.add_all(done).add(next) == base.add_all(done.push(next)),
        base.add_all(Seq::empty()) == base,
{
    match base {
        Markup::Element { tag, attributes, children } => {
            assert((children + done).push(next) == children + done.push(next));
            assert(children + Seq::<Markup>::empty() == children);
        },
        Markup::Text { content } => {},
    }
}

/// Adding two runs of children one after the other is adding their concatenation.
pub proof fn lemma_add_all_twice(base: Markup, first: Seq<Markup>, second: Seq<Markup>)
    ensures
        base.add_all(first).add_all(second) == base.add_all(first + second),
{
    match base {
        Markup::Element { tag, attributes, children } => {
            assert((children + first) + second == children + (first + second));
        },
        Markup::Text { content } => {},
    }
}

/// What each element of a sequence holds.
pub open spec fn element_markups(elements: Seq<svg::node::element::Element>) -> Seq<Markup> {
    elements.map_values(|e: svg::node::element::Element| element_markup(e))
}

/// Appends the elements, in their order, behind the children already there.
pub fn append_all(parent: &mut svg::node::element::Element, children: Vec<svg::node::element::Element>)
    ensures
        element_markup(*final(parent)) == element_markup(*old(parent)).add_all(
            element_markups(children@),
        ),
{
    let mut rest = children;
    let ghost base = element_markup(*parent);
    let ghost all = element_markups(children@);
    let ghost mut taken: int = 0;
    proof {
        lemma_add_all_step(base, Seq::empty(), base);
        assert(all.subrange(0, 0) == Seq::<Markup>::empty());
        assert(all.subrange(0, all.len() as int) == all);
    }
    while rest.len() > 0
        invariant
            0 <= taken <= all.len(),
            element_markups(rest@) == all.subrange(taken, all.len() as int),
            element_markup(*parent) == base.add_all(all.subrange(0, taken)),
        decreases rest@.len(),
    {
        let ghost before = rest@;
        let child = rest.remove(0);
        proof {
            assert(element_markups(before).len() == before.len());
            assert(all.subrange(taken, all.len() as int).len() == all.len() - taken);
            assert(taken < all.len());
            assert(element_markups(before)[0] == element_markup(child));
            assert(all.subrange(taken, all.len() as int)[0] == all[taken]);
            lemma_add_all_step(base, all.subrange(0, taken), element_markup(child));
            assert(all.subrange(0, taken + 1) == all.subrange(0, taken).push(all[taken]));
            assert(element_markups(rest@) == all.subrange(taken + 1, all.len() as int)) by {
                assert forall|i: int| 0 <= i < rest@.len() implies element_markups(rest@)[i]
                    == all.subrange(taken + 1, all.len() as int)[i] by {
                    assert(rest@[i] == before[i + 1]);
                    assert(element_markups(before)[i + 1] == all.subrange(
                        taken,
                        all.len() as int,
                    )[i + 1]);
                }
                assert(element_markups(rest@).len() == all.len() - taken - 1) by {
                    assert(element_markups(before).len() == all.len() - taken);
                }
            }
            taken = taken + 1;
        }
        append(parent, child);
    }
    proof {
        assert(element_markups(rest@).len() == 0);
        assert(all.subrange(0, taken) == all);
    }
}

/// Sets an attribute to a number of millionths, written as a decimal.
pub fn assign_decimal(element: &mut svg::node::element::Element, name: &str, v: i64)
    ensures
        element_markup(*final(element)) == element_markup(*old(element)).set(
            name@,
            decimal_text(v as int),
        ),
{
    let value = decimal_string(v);
    assign(element, name, value.as_str());
}

} // verus!
