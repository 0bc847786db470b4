//! Fieldsets.

use crate::attr::{attrs_view, Attribute, AttributeView};
use crate::node::{Element, ElementView, Node, NodeView, Tag};
use vstd::prelude::*;

verus! {

/// What a fieldset is rendered from.
#[derive(Debug, PartialEq, Eq)]
pub struct FieldsetProps<C> {
    /// The legend at the top of the fieldset.
    pub legend: String,
    pub children: C,
    /// Passthrough attributes for the `fieldset` element.
    pub attributes: Vec<Attribute>,
}

/// The mathematical value of [`FieldsetProps`].
pub struct FieldsetPropsView<C> {
    pub legend: Seq<char>,
    pub children: C,
    pub attributes: Seq<AttributeView>,
}

impl<C> View for FieldsetProps<C> {
    type V = FieldsetPropsView<C>;

    open spec fn view(&self) -> FieldsetPropsView<C> {
        FieldsetPropsView {
            legend: self.legend@,
            children: self.children,
            attributes: attrs_view(self.attributes@),
        }
    }
}

impl<C> FieldsetProps<C> {
    /// The props with what must be given, every variant at its default and
    /// no passthrough attribute.
    pub fn new(legend: &str, children: C) -> (out: Self)
        ensures
            out@ == (FieldsetPropsView {
                legend: legend@,
                children,
                attributes: Seq::empty(),
            }),
    {
        let out = FieldsetProps {
            legend: String::from_str(legend),
            children,
            attributes: Vec::new(),
        };
        assert(out@.attributes =~= Seq::empty());
        out
    }
}

/// The tree of a fieldset: the legend, then the content.
pub open spec fn fieldset_tree<C>(props: FieldsetPropsView<C>) -> NodeView<C> {
    ElementView::new(Tag::Fieldset)
        .attr("class"@, "fieldset"@)
        .pass(props.attributes)
        .child(
            ElementView::new(Tag::Legend)
                .attr("class"@, "fieldset-legend"@)
                .text(props.legend)
                .node(),
        )
        .child(NodeView::Content(props.children))
        .node()
}

/// Renders a fieldset.
pub fn Fieldset<C>(props: FieldsetProps<C>) -> (out: Node<C>)
    ensures
        out.view() == fieldset_tree::<C>(props@),
{
    Element::new(Tag::Fieldset)
        .attr("class", "fieldset")
        .pass(&props.attributes)
        .child(
            Element::new(Tag::Legend)
                .attr("class", "fieldset-legend")
                .text(props.legend.as_str())
                .into_node(),
        )
        .child(Node::content(props.children))
        .into_node()
}

/// Rendering is repeatable: props with the same value give the same tree.
pub proof fn lemma_fieldset_repeatable<C>(first: FieldsetProps<C>, second: FieldsetProps<C>)
    requires
        first@ == second@,
    ensures
        fieldset_tree(first@) == fieldset_tree(second@),
{
}

} // verus!
