//! Breadcrumb trails.

use crate::attr::{attrs_view, Attribute, AttributeView};
use crate::node::{nodes_view, optional_text, Element, ElementView, Node, NodeView, Tag};
use vstd::prelude::*;

verus! {

/// One step of a breadcrumb trail: its text and, where it links somewhere,
/// the address.
#[derive(Debug, PartialEq, Eq)]
pub struct BreadcrumbItem {
    pub text: String,
    pub href: Option<String>,
}

/// The mathematical value of a [`BreadcrumbItem`].
pub struct BreadcrumbItemView {
    pub text: Seq<char>,
    pub href: Option<Seq<char>>,
}

impl View for BreadcrumbItem {
    type V = BreadcrumbItemView;

    open spec fn view(&self) -> BreadcrumbItemView {
        BreadcrumbItemView {
            text: self.text@,
            href: optional_text(self.href),
        }
    }
}

impl Clone for BreadcrumbItem {
    fn clone(&self) -> (out: Self)
        ensures
            out@ == self@,
    {
        BreadcrumbItem {
            text: self.text.clone(),
            href: match &self.href {
                Some(href) => Some(href.clone()),
                None => None,
            },
        }
    }
}

/// The values of a list of steps.
pub open spec fn items_view(items: Seq<BreadcrumbItem>) -> Seq<BreadcrumbItemView> {
    items.map_values(|item: BreadcrumbItem| item@)
}

/// What a breadcrumb trail is rendered from.
#[derive(Debug, PartialEq, Eq)]
pub struct BreadcrumbProps {
    pub items: Vec<BreadcrumbItem>,
    /// Passthrough attributes for the `div` element.
    pub attributes: Vec<Attribute>,
}

/// The mathematical value of [`BreadcrumbProps`].
pub struct BreadcrumbPropsView {
    pub items: Seq<BreadcrumbItemView>,
    pub attributes: Seq<AttributeView>,
}

impl View for BreadcrumbProps {
    type V = BreadcrumbPropsView;

    open spec fn view(&self) -> BreadcrumbPropsView {
        BreadcrumbPropsView {
            items: items_view(self.items@),
            attributes: attrs_view(self.attributes@),
        }
    }
}

impl BreadcrumbProps {
    /// The props with what must be given, every variant at its default and
    /// no passthrough attribute.
    pub fn new(items: Vec<BreadcrumbItem>) -> (out: Self)
        ensures
            out@ == (BreadcrumbPropsView {
                items: items_view(items@),
                attributes: Seq::empty(),
            }),
    {
        let out = BreadcrumbProps {
            items,
            attributes: Vec::new(),
        };
        assert(out@.attributes =~= Seq::empty());
        out
    }
}

/// The tree of one step: a list item that holds a link with the text where
/// the step has an address, and the bare text where it has none.
pub open spec fn crumb_tree<C>(item: BreadcrumbItemView) -> NodeView<C> {
    match item.href {
        Some(href) => ElementView::new(Tag::Li)
            .child(ElementView::new(Tag::A).attr("href"@, href).text(item.text).node())
            .node(),
        None => ElementView::new(Tag::Li).text(item.text).node(),
    }
}

/// The trees of the steps, in their order.
pub open spec fn crumb_trees<C>(items: Seq<BreadcrumbItemView>) -> Seq<NodeView<C>> {
    Seq::new(items.len(), |i: int| crumb_tree(items[i]))
}

/// The tree of a breadcrumb trail: a `div` around a list with one item for
/// each step.
pub open spec fn breadcrumb_tree<C>(props: BreadcrumbPropsView) -> NodeView<C> {
    ElementView::new(Tag::Div)
        .attr("class"@, "breadcrumbs text-sm"@)
        .pass(props.attributes)
        .child(ElementView::new(Tag::Ul).extend(crumb_trees(props.items)).node())
        .node()
}

/// Renders one step of a breadcrumb trail.
pub fn crumb<C>(item: &BreadcrumbItem) -> (out: Node<C>)
    ensures
        out.view() == crumb_tree::<C>(item@),
{
    match &item.href {
        Some(href) => Element::new(Tag::Li)
            .child(
                Element::new(Tag::A).attr("href", href.as_str()).text(item.text.as_str()).into_node(),
            )
            .into_node(),
        None => Element::new(Tag::Li).text(item.text.as_str()).into_node(),
    }
}

/// Renders a breadcrumb trail.
pub fn Breadcrumb<C>(props: BreadcrumbProps) -> (out: Node<C>)
    ensures
        out.view() == breadcrumb_tree::<C>(props@),
{
    let mut crumbs: Vec<Node<C>> = Vec::new();
    let mut i: usize = 0;
    while i < props.items.len()
        invariant
            i <= props.items.len(),
            nodes_view(crumbs@) == crumb_trees::<C>(items_view(props.items@).take(i as int)),
        decreases props.items.len() - i,
    {
        let ghost before = nodes_view(crumbs@);
        let node = crumb(&props.items[i]);
        crumbs.push(node);
        assert(nodes_view(crumbs@) =~= before.push(node.view()));
        assert(nodes_view(crumbs@) =~= crumb_trees::<C>(items_view(props.items@).take(i + 1)));
        i += 1;
    }
    assert(items_view(props.items@).take(i as int) =~= items_view(props.items@));
    Element::new(Tag::Div)
        .attr("class", "breadcrumbs text-sm")
        .pass(&props.attributes)
        .child(Element::new(Tag::Ul).extend(crumbs).into_node())
        .into_node()
}

/// Rendering is repeatable: props with the same value give the same tree.
pub proof fn lemma_breadcrumb_repeatable<C>(first: BreadcrumbProps, second: BreadcrumbProps)
    requires
        first@ == second@,
    ensures
        breadcrumb_tree::<C>(first@) == breadcrumb_tree::<C>(second@),
{
}

} // verus!
