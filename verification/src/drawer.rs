//! Drawers, with their body and footer.

use crate::attr::{attrs_view, Attribute, AttributeView};
use crate::node::{optional_text, Element, ElementView, Node, NodeView, Tag};
use vstd::prelude::*;

verus! {

/// What a drawer is rendered from.
#[derive(Debug, PartialEq, Eq)]
pub struct DrawerProps<C> {
    /// The id by which a trigger opens the drawer.
    pub trigger_id: String,
    /// The title of the drawer.
    pub label: String,
    pub children: C,
    /// Where the form around the drawer posts to, if there is to be one.
    pub submit_action: Option<String>,
    /// Passthrough attributes for the `div` element.
    pub attributes: Vec<Attribute>,
}

/// The mathematical value of [`DrawerProps`].
pub struct DrawerPropsView<C> {
    pub trigger_id: Seq<char>,
    pub label: Seq<char>,
    pub children: C,
    pub submit_action: Option<Seq<char>>,
    pub attributes: Seq<AttributeView>,
}

impl<C> View for DrawerProps<C> {
    type V = DrawerPropsView<C>;

    open spec fn view(&self) -> DrawerPropsView<C> {
        DrawerPropsView {
            trigger_id: self.trigger_id@,
            label: self.label@,
            children: self.children,
            submit_action: optional_text(self.submit_action),
            attributes: attrs_view(self.attributes@),
        }
    }
}

impl<C> DrawerProps<C> {
    /// The props with what must be given, every variant at its default and
    /// no passthrough attribute.
    pub fn new(trigger_id: &str, label: &str, children: C) -> (out: Self)
        ensures
            out@ == (DrawerPropsView {
                trigger_id: trigger_id@,
                label: label@,
                children,
                submit_action: None,
                attributes: Seq::empty(),
            }),
    {
        let out = DrawerProps {
            trigger_id: String::from_str(trigger_id),
            label: String::from_str(label),
            children,
            submit_action: None,
            attributes: Vec::new(),
        };
        assert(out@.attributes =~= Seq::empty());
        out
    }
}

/// The frame of a drawer: an outer `div` with the passthrough attributes,
/// around the drawer with its overlay and its panel; the panel holds the
/// header and the content.
pub open spec fn drawer_frame<C>(props: DrawerPropsView<C>) -> NodeView<C> {
    ElementView::new(Tag::Div)
        .pass(props.attributes)
        .child(
            ElementView::new(Tag::Div)
                .attr("class"@, "side-drawer flex flex-col"@)
                .attr("id"@, props.trigger_id)
                .child(
                    ElementView::new(Tag::Div)
                        .attr("class"@, "drawer__overlay"@)
                        .attr("tabindex"@, "-1"@)
                        .node(),
                )
                .child(
                    ElementView::new(Tag::Div)
                        .attr("class"@, "drawer__panel"@)
                        .child(
                            ElementView::new(Tag::Header)
                                .attr("class"@, "drawer__header"@)
                                .child(
                                    ElementView::new(Tag::H4)
                                        .attr("class"@, "drawer__title"@)
                                        .text(props.label)
                                        .node(),
                                )
                                .child(
                                    ElementView::new(Tag::A)
                                        .attr("href"@, "#"@)
                                        .attr("class"@, "drawer__close"@)
                                        .text("X"@)
                                        .node(),
                                )
                                .node(),
                        )
                        .child(NodeView::Content(props.children))
                        .node(),
                )
                .node(),
        )
        .node()
}

/// The tree of a drawer: the frame, inside a form that posts to the submit
/// action where one is given, and by itself where none is.
pub open spec fn drawer_tree<C>(props: DrawerPropsView<C>) -> NodeView<C> {
    match props.submit_action {
        Some(action) => ElementView::new(Tag::Form)
            .attr("action"@, action)
            .attr("method"@, "post"@)
            .child(drawer_frame(props))
            .node(),
        None => drawer_frame(props),
    }
}

/// Renders a drawer.
pub fn Drawer<C>(props: DrawerProps<C>) -> (out: Node<C>)
    ensures
        out.view() == drawer_tree::<C>(props@),
{
    let inner = Element::new(Tag::Div)
        .pass(&props.attributes)
        .child(
            Element::new(Tag::Div)
                .attr("class", "side-drawer flex flex-col")
                .attr("id", props.trigger_id.as_str())
                .child(
                    Element::new(Tag::Div)
                        .attr("class", "drawer__overlay")
                        .attr("tabindex", "-1")
                        .into_node(),
                )
                .child(
                    Element::new(Tag::Div)
                        .attr("class", "drawer__panel")
                        .child(
                            Element::new(Tag::Header)
                                .attr("class", "drawer__header")
                                .child(
                                    Element::new(Tag::H4)
                                        .attr("class", "drawer__title")
                                        .text(props.label.as_str())
                                        .into_node(),
                                )
                                .child(
                                    Element::new(Tag::A)
                                        .attr("href", "#")
                                        .attr("class", "drawer__close")
                                        .text("X")
                                        .into_node(),
                                )
                                .into_node(),
                        )
                        .child(Node::content(props.children))
                        .into_node(),
                )
                .into_node(),
        )
        .into_node();
    match &props.submit_action {
        Some(action) => Element::new(Tag::Form)
            .attr("action", action.as_str())
            .attr("method", "post")
            .child(inner)
            .into_node(),
        None => inner,
    }
}

/// Rendering is repeatable: props with the same value give the same tree.
pub proof fn lemma_drawer_repeatable<C>(first: DrawerProps<C>, second: DrawerProps<C>)
    requires
        first@ == second@,
    ensures
        drawer_tree(first@) == drawer_tree(second@),
{
}

/// The form is there exactly when a submit action is given, and what it
/// holds is what stands alone without one.
pub proof fn lemma_drawer_form_iff_action<C>(props: DrawerPropsView<C>)
    ensures
        props.submit_action is None ==> drawer_tree(props) == drawer_frame(props),
        props.submit_action is Some ==> (drawer_tree(props) matches NodeView::Element(form)
            && form.tag == Tag::Form && form.children == seq![drawer_frame(props)]),
        drawer_frame(props) matches NodeView::Element(inner) && inner.tag != Tag::Form,
{
    if props.submit_action is Some {
        let form = drawer_tree(props)->Element_0;
        assert(form.children =~= seq![drawer_frame(props)]);
    }
}

/// What the footer of a drawer is rendered from.
#[derive(Debug, PartialEq, Eq)]
pub struct DrawerFooterProps<C> {
    pub children: C,
    /// Passthrough attributes for the `div` element.
    pub attributes: Vec<Attribute>,
}

/// The mathematical value of [`DrawerFooterProps`].
pub struct DrawerFooterPropsView<C> {
    pub children: C,
    pub attributes: Seq<AttributeView>,
}

impl<C> View for DrawerFooterProps<C> {
    type V = DrawerFooterPropsView<C>;

    open spec fn view(&self) -> DrawerFooterPropsView<C> {
        DrawerFooterPropsView {
            children: self.children,
            attributes: attrs_view(self.attributes@),
        }
    }
}

impl<C> DrawerFooterProps<C> {
    /// The props with what must be given, every variant at its default and
    /// no passthrough attribute.
    pub fn new(children: C) -> (out: Self)
        ensures
            out@ == (DrawerFooterPropsView {
                children,
                attributes: Seq::empty(),
            }),
    {
        let out = DrawerFooterProps {
            children,
            attributes: Vec::new(),
        };
        assert(out@.attributes =~= Seq::empty());
        out
    }
}

/// The tree of the footer of a drawer.
pub open spec fn drawer_footer_tree<C>(props: DrawerFooterPropsView<C>) -> NodeView<C> {
    ElementView::new(Tag::Div)
        .attr("class"@, "drawer__footer"@)
        .pass(props.attributes)
        .child(NodeView::Content(props.children))
        .node()
}

/// Renders the footer of a drawer.
pub fn DrawerFooter<C>(props: DrawerFooterProps<C>) -> (out: Node<C>)
    ensures
        out.view() == drawer_footer_tree::<C>(props@),
{
    Element::new(Tag::Div)
        .attr("class", "drawer__footer")
        .pass(&props.attributes)
        .child(Node::content(props.children))
        .into_node()
}

/// Rendering is repeatable: props with the same value give the same tree.
pub proof fn lemma_drawer_footer_repeatable<C>(
    first: DrawerFooterProps<C>,
    second: DrawerFooterProps<C>,
)
    requires
        first@ == second@,
    ensures
        drawer_footer_tree(first@) == drawer_footer_tree(second@),
{
}

/// What the body of a drawer is rendered from.
#[derive(Debug, PartialEq, Eq)]
pub struct DrawerBodyProps<C> {
    pub children: C,
    /// Passthrough attributes for the `div` element.
    pub attributes: Vec<Attribute>,
}

/// The mathematical value of [`DrawerBodyProps`].
pub struct DrawerBodyPropsView<C> {
    pub children: C,
    pub attributes: Seq<AttributeView>,
}

impl<C> View for DrawerBodyProps<C> {
    type V = DrawerBodyPropsView<C>;

    open spec fn view(&self) -> DrawerBodyPropsView<C> {
        DrawerBodyPropsView {
            children: self.children,
            attributes: attrs_view(self.attributes@),
        }
    }
}

impl<C> DrawerBodyProps<C> {
    /// The props with what must be given, every variant at its default and
    /// no passthrough attribute.
    pub fn new(children: C) -> (out: Self)
        ensures
            out@ == (DrawerBodyPropsView {
                children,
                attributes: Seq::empty(),
            }),
    {
        let out = DrawerBodyProps {
            children,
            attributes: Vec::new(),
        };
        assert(out@.attributes =~= Seq::empty());
        out
    }
}

/// The tree of the body of a drawer.
pub open spec fn drawer_body_tree<C>(props: DrawerBodyPropsView<C>) -> NodeView<C> {
    ElementView::new(Tag::Div)
        .attr("class"@, "drawer__body"@)
        .pass(props.attributes)
        .child(NodeView::Content(props.children))
        .node()
}

/// Renders the body of a drawer.
pub fn DrawerBody<C>(props: DrawerBodyProps<C>) -> (out: Node<C>)
    ensures
        out.view() == drawer_body_tree::<C>(props@),
{
    Element::new(Tag::Div)
        .attr("class", "drawer__body")
        .pass(&props.attributes)
        .child(Node::content(props.children))
        .into_node()
}

/// Rendering is repeatable: props with the same value give the same tree.
pub proof fn lemma_drawer_body_repeatable<C>(first: DrawerBodyProps<C>, second: DrawerBodyProps<C>)
    requires
        first@ == second@,
    ensures
        drawer_body_tree(first@) == drawer_body_tree(second@),
{
}

} // verus!
