//! Cards, with their header and body.

use crate::attr::{attrs_view, Attribute, AttributeView};
use crate::node::{Element, ElementView, Node, NodeView, Tag};
use vstd::prelude::*;

verus! {

/// What a card is rendered from.
#[derive(Debug, PartialEq, Eq)]
pub struct CardProps<C> {
    pub children: C,
    /// Passthrough attributes for the `div` element.
    pub attributes: Vec<Attribute>,
}

/// The mathematical value of [`CardProps`].
pub struct CardPropsView<C> {
    pub children: C,
    pub attributes: Seq<AttributeView>,
}

impl<C> View for CardProps<C> {
    type V = CardPropsView<C>;

    open spec fn view(&self) -> CardPropsView<C> {
        CardPropsView {
            children: self.children,
            attributes: attrs_view(self.attributes@),
        }
    }
}

impl<C> CardProps<C> {
    /// The props with what must be given, every variant at its default and
    /// no passthrough attribute.
    pub fn new(children: C) -> (out: Self)
        ensures
            out@ == (CardPropsView {
                children,
                attributes: Seq::empty(),
            }),
    {
        let out = CardProps {
            children,
            attributes: Vec::new(),
        };
        assert(out@.attributes =~= Seq::empty());
        out
    }
}

/// The tree of a card.
pub open spec fn card_tree<C>(props: CardPropsView<C>) -> NodeView<C> {
    ElementView::new(Tag::Div)
        .attr("class"@, "card"@)
        .pass(props.attributes)
        .child(NodeView::Content(props.children))
        .node()
}

/// Renders a card.
pub fn Card<C>(props: CardProps<C>) -> (out: Node<C>)
    ensures
        out.view() == card_tree::<C>(props@),
{
    Element::new(Tag::Div)
        .attr("class", "card")
        .pass(&props.attributes)
        .child(Node::content(props.children))
        .into_node()
}

/// Rendering is repeatable: props with the same value give the same tree.
pub proof fn lemma_card_repeatable<C>(first: CardProps<C>, second: CardProps<C>)
    requires
        first@ == second@,
    ensures
        card_tree(first@) == card_tree(second@),
{
}

/// What the header of a card is rendered from.
#[derive(Debug, PartialEq, Eq)]
pub struct CardHeaderProps<C> {
    /// The title of the card.
    pub title: String,
    pub children: C,
    /// Passthrough attributes for the `div` element.
    pub attributes: Vec<Attribute>,
}

/// The mathematical value of [`CardHeaderProps`].
pub struct CardHeaderPropsView<C> {
    pub title: Seq<char>,
    pub children: C,
    pub attributes: Seq<AttributeView>,
}

impl<C> View for CardHeaderProps<C> {
    type V = CardHeaderPropsView<C>;

    open spec fn view(&self) -> CardHeaderPropsView<C> {
        CardHeaderPropsView {
            title: self.title@,
            children: self.children,
            attributes: attrs_view(self.attributes@),
        }
    }
}

impl<C> CardHeaderProps<C> {
    /// The props with what must be given, every variant at its default and
    /// no passthrough attribute.
    pub fn new(title: &str, children: C) -> (out: Self)
        ensures
            out@ == (CardHeaderPropsView {
                title: title@,
                children,
                attributes: Seq::empty(),
            }),
    {
        let out = CardHeaderProps {
            title: String::from_str(title),
            children,
            attributes: Vec::new(),
        };
        assert(out@.attributes =~= Seq::empty());
        out
    }
}

/// The tree of the header of a card: the title, then the content.
pub open spec fn card_header_tree<C>(props: CardHeaderPropsView<C>) -> NodeView<C> {
    ElementView::new(Tag::Div)
        .attr("class"@, "card-header flex items-center"@)
        .pass(props.attributes)
        .child(
            ElementView::new(Tag::H3)
                .attr("class"@, "card-title overflow-hidden"@)
                .text(props.title)
                .node(),
        )
        .child(NodeView::Content(props.children))
        .node()
}

/// Renders the header of a card.
pub fn CardHeader<C>(props: CardHeaderProps<C>) -> (out: Node<C>)
    ensures
        out.view() == card_header_tree::<C>(props@),
{
    Element::new(Tag::Div)
        .attr("class", "card-header flex items-center")
        .pass(&props.attributes)
        .child(
            Element::new(Tag::H3)
                .attr("class", "card-title overflow-hidden")
                .text(props.title.as_str())
                .into_node(),
        )
        .child(Node::content(props.children))
        .into_node()
}

/// Rendering is repeatable: props with the same value give the same tree.
pub proof fn lemma_card_header_repeatable<C>(first: CardHeaderProps<C>, second: CardHeaderProps<C>)
    requires
        first@ == second@,
    ensures
        card_header_tree(first@) == card_header_tree(second@),
{
}

/// What the body of a card is rendered from.
#[derive(Debug, PartialEq, Eq)]
pub struct CardBodyProps<C> {
    pub children: C,
    /// Passthrough attributes for the `div` element.
    pub attributes: Vec<Attribute>,
}

/// The mathematical value of [`CardBodyProps`].
pub struct CardBodyPropsView<C> {
    pub children: C,
    pub attributes: Seq<AttributeView>,
}

impl<C> View for CardBodyProps<C> {
    type V = CardBodyPropsView<C>;

    open spec fn view(&self) -> CardBodyPropsView<C> {
        CardBodyPropsView {
            children: self.children,
            attributes: attrs_view(self.attributes@),
        }
    }
}

impl<C> CardBodyProps<C> {
    /// The props with what must be given, every variant at its default and
    /// no passthrough attribute.
    pub fn new(children: C) -> (out: Self)
        ensures
            out@ == (CardBodyPropsView {
                children,
                attributes: Seq::empty(),
            }),
    {
        let out = CardBodyProps {
            children,
            attributes: Vec::new(),
        };
        assert(out@.attributes =~= Seq::empty());
        out
    }
}

/// The tree of the body of a card.
pub open spec fn card_body_tree<C>(props: CardBodyPropsView<C>) -> NodeView<C> {
    ElementView::new(Tag::Div)
        .attr("class"@, "card-body"@)
        .pass(props.attributes)
        .child(NodeView::Content(props.children))
        .node()
}

/// Renders the body of a card.
pub fn CardBody<C>(props: CardBodyProps<C>) -> (out: Node<C>)
    ensures
        out.view() == card_body_tree::<C>(props@),
{
    Element::new(Tag::Div)
        .attr("class", "card-body")
        .pass(&props.attributes)
        .child(Node::content(props.children))
        .into_node()
}

/// Rendering is repeatable: props with the same value give the same tree.
pub proof fn lemma_card_body_repeatable<C>(first: CardBodyProps<C>, second: CardBodyProps<C>)
    requires
        first@ == second@,
    ensures
        card_body_tree(first@) == card_body_tree(second@),
{
}

} // verus!
