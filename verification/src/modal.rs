//! Modals, with their body and action row.

use crate::attr::{attrs_view, Attribute, AttributeView};
use crate::node::{optional_text, Element, ElementView, Node, NodeView, Tag};
use vstd::prelude::*;

verus! {

/// What a modal is rendered from.
#[derive(Debug, PartialEq, Eq)]
pub struct ModalProps<C> {
    /// The id by which a trigger opens the modal.
    pub trigger_id: String,
    pub children: C,
    /// Where the form around the modal posts to, if there is to be one.
    pub submit_action: Option<String>,
    /// Passthrough attributes for the `dialog` element.
    pub attributes: Vec<Attribute>,
}

/// The mathematical value of [`ModalProps`].
pub struct ModalPropsView<C> {
    pub trigger_id: Seq<char>,
    pub children: C,
    pub submit_action: Option<Seq<char>>,
    pub attributes: Seq<AttributeView>,
}

impl<C> View for ModalProps<C> {
    type V = ModalPropsView<C>;

    open spec fn view(&self) -> ModalPropsView<C> {
        ModalPropsView {
            trigger_id: self.trigger_id@,
            children: self.children,
            submit_action: optional_text(self.submit_action),
            attributes: attrs_view(self.attributes@),
        }
    }
}

impl<C> ModalProps<C> {
    /// The props with what must be given, every variant at its default and
    /// no passthrough attribute.
    pub fn new(trigger_id: &str, children: C) -> (out: Self)
        ensures
            out@ == (ModalPropsView {
                trigger_id: trigger_id@,
                children,
                submit_action: None,
                attributes: Seq::empty(),
            }),
    {
        let out = ModalProps {
            trigger_id: String::from_str(trigger_id),
            children,
            submit_action: None,
            attributes: Vec::new(),
        };
        assert(out@.attributes =~= Seq::empty());
        out
    }
}

/// The dialog of a modal.
pub open spec fn modal_dialog<C>(props: ModalPropsView<C>) -> NodeView<C> {
    ElementView::new(Tag::Dialog)
        .attr("class"@, "modal"@)
        .attr("id"@, props.trigger_id)
        .attr("popover"@, "auto"@)
        .pass(props.attributes)
        .child(NodeView::Content(props.children))
        .node()
}

/// The tree of a modal: the dialog, inside a form that posts to the submit
/// action where one is given, and by itself where none is.
pub open spec fn modal_tree<C>(props: ModalPropsView<C>) -> NodeView<C> {
    match props.submit_action {
        Some(action) => ElementView::new(Tag::Form)
            .attr("action"@, action)
            .attr("method"@, "post"@)
            .child(modal_dialog(props))
            .node(),
        None => modal_dialog(props),
    }
}

/// Renders a modal.
pub fn Modal<C>(props: ModalProps<C>) -> (out: Node<C>)
    ensures
        out.view() == modal_tree::<C>(props@),
{
    let inner = Element::new(Tag::Dialog)
        .attr("class", "modal")
        .attr("id", props.trigger_id.as_str())
        .attr("popover", "auto")
        .pass(&props.attributes)
        .child(Node::content(props.children))
        .into_node();
    match &props.submit_action {
        Some(action) => Element::new(Tag::Form)
            .attr("action", action.as_str())
            .attr("method", "post")
            .child(inner)
            .into_node(),
        None => inner,
    }
}

/// Rendering is repeatable: props with the same value give the same tree.
pub proof fn lemma_modal_repeatable<C>(first: ModalProps<C>, second: ModalProps<C>)
    requires
        first@ == second@,
    ensures
        modal_tree(first@) == modal_tree(second@),
{
}

/// The form is there exactly when a submit action is given, and what it
/// holds is what stands alone without one.
pub proof fn lemma_modal_form_iff_action<C>(props: ModalPropsView<C>)
    ensures
        props.submit_action is None ==> modal_tree(props) == modal_dialog(props),
        props.submit_action is Some ==> (modal_tree(props) matches NodeView::Element(form)
            && form.tag == Tag::Form && form.children == seq![modal_dialog(props)]),
        modal_dialog(props) matches NodeView::Element(inner) && inner.tag != Tag::Form,
{
    if props.submit_action is Some {
        let form = modal_tree(props)->Element_0;
        assert(form.children =~= seq![modal_dialog(props)]);
    }
}

/// What the body of a modal is rendered from.
#[derive(Debug, PartialEq, Eq)]
pub struct ModalBodyProps<C> {
    pub children: C,
    /// Passthrough attributes for the `div` element.
    pub attributes: Vec<Attribute>,
}

/// The mathematical value of [`ModalBodyProps`].
pub struct ModalBodyPropsView<C> {
    pub children: C,
    pub attributes: Seq<AttributeView>,
}

impl<C> View for ModalBodyProps<C> {
    type V = ModalBodyPropsView<C>;

    open spec fn view(&self) -> ModalBodyPropsView<C> {
        ModalBodyPropsView {
            children: self.children,
            attributes: attrs_view(self.attributes@),
        }
    }
}

impl<C> ModalBodyProps<C> {
    /// The props with what must be given, every variant at its default and
    /// no passthrough attribute.
    pub fn new(children: C) -> (out: Self)
        ensures
            out@ == (ModalBodyPropsView {
                children,
                attributes: Seq::empty(),
            }),
    {
        let out = ModalBodyProps {
            children,
            attributes: Vec::new(),
        };
        assert(out@.attributes =~= Seq::empty());
        out
    }
}

/// The tree of the body of a modal.
pub open spec fn modal_body_tree<C>(props: ModalBodyPropsView<C>) -> NodeView<C> {
    ElementView::new(Tag::Div)
        .attr("class"@, "modal-box"@)
        .pass(props.attributes)
        .child(NodeView::Content(props.children))
        .node()
}

/// Renders the body of a modal.
pub fn ModalBody<C>(props: ModalBodyProps<C>) -> (out: Node<C>)
    ensures
        out.view() == modal_body_tree::<C>(props@),
{
    Element::new(Tag::Div)
        .attr("class", "modal-box")
        .pass(&props.attributes)
        .child(Node::content(props.children))
        .into_node()
}

/// Rendering is repeatable: props with the same value give the same tree.
pub proof fn lemma_modal_body_repeatable<C>(first: ModalBodyProps<C>, second: ModalBodyProps<C>)
    requires
        first@ == second@,
    ensures
        modal_body_tree(first@) == modal_body_tree(second@),
{
}

/// What the action row of a modal is rendered from.
#[derive(Debug, PartialEq, Eq)]
pub struct ModalActionProps<C> {
    pub children: C,
    /// Passthrough attributes for the `div` element.
    pub attributes: Vec<Attribute>,
}

/// The mathematical value of [`ModalActionProps`].
pub struct ModalActionPropsView<C> {
    pub children: C,
    pub attributes: Seq<AttributeView>,
}

impl<C> View for ModalActionProps<C> {
    type V = ModalActionPropsView<C>;

    open spec fn view(&self) -> ModalActionPropsView<C> {
        ModalActionPropsView {
            children: self.children,
            attributes: attrs_view(self.attributes@),
        }
    }
}

impl<C> ModalActionProps<C> {
    /// The props with what must be given, every variant at its default and
    /// no passthrough attribute.
    pub fn new(children: C) -> (out: Self)
        ensures
            out@ == (ModalActionPropsView {
                children,
                attributes: Seq::empty(),
            }),
    {
        let out = ModalActionProps {
            children,
            attributes: Vec::new(),
        };
        assert(out@.attributes =~= Seq::empty());
        out
    }
}

/// The tree of the action row of a modal.
pub open spec fn modal_action_tree<C>(props: ModalActionPropsView<C>) -> NodeView<C> {
    ElementView::new(Tag::Div)
        .attr("class"@, "modal-action"@)
        .pass(props.attributes)
        .child(NodeView::Content(props.children))
        .node()
}

/// Renders the action row of a modal.
pub fn ModalAction<C>(props: ModalActionProps<C>) -> (out: Node<C>)
    ensures
        out.view() == modal_action_tree::<C>(props@),
{
    Element::new(Tag::Div)
        .attr("class", "modal-action")
        .pass(&props.attributes)
        .child(Node::content(props.children))
        .into_node()
}

/// Rendering is repeatable: props with the same value give the same tree.
pub proof fn lemma_modal_action_repeatable<C>(
    first: ModalActionProps<C>,
    second: ModalActionProps<C>,
)
    requires
        first@ == second@,
    ensures
        modal_action_tree(first@) == modal_action_tree(second@),
{
}

} // verus!
