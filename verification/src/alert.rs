//! Alerts.

use crate::attr::{attrs_view, Attribute, AttributeView};
use crate::class::{compose, compose_spec, is_tidy, lemma_compose_tidy, texts};
use crate::node::{Element, ElementView, Node, NodeView, Tag};
use crate::variant::Variant;
use vstd::prelude::*;

verus! {

/// The colour of an alert.
#[derive(Clone, Copy, Debug, PartialEq, Eq, Structural)]
pub enum AlertColor {
    Default,
    Warn,
    Info,
    Error,
    Success,
}

impl Default for AlertColor {
    fn default() -> (out: Self)
        ensures
            out == AlertColor::Default,
    {
        AlertColor::Default
    }
}

impl Variant for AlertColor {
    open spec fn members() -> Seq<Self> {
        seq![
            AlertColor::Default,
            AlertColor::Warn,
            AlertColor::Info,
            AlertColor::Error,
            AlertColor::Success,
        ]
    }

    open spec fn fragment(self) -> Seq<char> {
        match self {
            AlertColor::Default => ""@,
            AlertColor::Warn => "alert-warning"@,
            AlertColor::Info => "alert-info"@,
            AlertColor::Error => "alert-error"@,
            AlertColor::Success => "alert-success"@,
        }
    }

    open spec fn designated_default() -> Self {
        AlertColor::Default
    }

    fn all() -> (out: Vec<Self>) {
        vec![
            AlertColor::Default,
            AlertColor::Warn,
            AlertColor::Info,
            AlertColor::Error,
            AlertColor::Success,
        ]
    }

    fn resolve(&self) -> (out: &'static str) {
        match self {
            AlertColor::Default => "",
            AlertColor::Warn => "alert-warning",
            AlertColor::Info => "alert-info",
            AlertColor::Error => "alert-error",
            AlertColor::Success => "alert-success",
        }
    }

    proof fn lemma_members_complete(v: Self) {
        let all = Self::members();
        match v {
            AlertColor::Default => assert(all[0] == v),
            AlertColor::Warn => assert(all[1] == v),
            AlertColor::Info => assert(all[2] == v),
            AlertColor::Error => assert(all[3] == v),
            AlertColor::Success => assert(all[4] == v),
        }
    }

    proof fn lemma_fragment_tidy(v: Self) {
        reveal_strlit("");
        reveal_strlit("alert-warning");
        reveal_strlit("alert-info");
        reveal_strlit("alert-error");
        reveal_strlit("alert-success");
    }

    proof fn lemma_fragments_distinct(a: Self, b: Self) {
        reveal_strlit("");
        reveal_strlit("alert-warning");
        reveal_strlit("alert-info");
        reveal_strlit("alert-error");
        reveal_strlit("alert-success");
        // Fragments of one length differ in a letter.
        assert(""@.len() == 0);
        assert("alert-warning"@.len() == 13 && "alert-warning"@[6] == 'w');
        assert("alert-info"@.len() == 10);
        assert("alert-error"@.len() == 11);
        assert("alert-success"@.len() == 13 && "alert-success"@[6] == 's');
    }
}

/// What an alert is rendered from.
#[derive(Debug, PartialEq, Eq)]
pub struct AlertProps<C> {
    pub children: C,
    pub alert_color: AlertColor,
    /// Passthrough attributes for the `div` element.
    pub attributes: Vec<Attribute>,
}

/// The mathematical value of [`AlertProps`].
pub struct AlertPropsView<C> {
    pub children: C,
    pub alert_color: AlertColor,
    pub attributes: Seq<AttributeView>,
}

impl<C> View for AlertProps<C> {
    type V = AlertPropsView<C>;

    open spec fn view(&self) -> AlertPropsView<C> {
        AlertPropsView {
            children: self.children,
            alert_color: self.alert_color,
            attributes: attrs_view(self.attributes@),
        }
    }
}

impl<C> AlertProps<C> {
    /// The props with what must be given, every variant at its default and
    /// no passthrough attribute.
    pub fn new(children: C) -> (out: Self)
        ensures
            out@ == (AlertPropsView {
                children,
                alert_color: AlertColor::designated_default(),
                attributes: Seq::empty(),
            }),
    {
        let out = AlertProps {
            children,
            alert_color: AlertColor::Default,
            attributes: Vec::new(),
        };
        assert(out@.attributes =~= Seq::empty());
        out
    }
}

/// The class string of an alert: the base class, then the fragment of each
/// variant that has one.
pub open spec fn alert_class<C>(props: AlertPropsView<C>) -> Seq<char> {
    compose_spec("alert"@, seq![props.alert_color.fragment()])
}

/// The class string of an alert has no space at either end and none doubled,
/// whatever the variants are.
pub proof fn lemma_alert_class_tidy<C>(props: AlertPropsView<C>)
    ensures
        is_tidy(alert_class(props)),
{
    reveal_strlit("alert");
    AlertColor::lemma_fragment_tidy(props.alert_color);
    lemma_compose_tidy("alert"@, seq![props.alert_color.fragment()]);
}

/// The tree of an alert: a `div` with the alert class and the content.
pub open spec fn alert_tree<C>(props: AlertPropsView<C>) -> NodeView<C> {
    ElementView::new(Tag::Div)
        .attr("class"@, alert_class(props))
        .pass(props.attributes)
        .child(NodeView::Content(props.children))
        .node()
}

/// Renders an alert.
pub fn Alert<C>(props: AlertProps<C>) -> (out: Node<C>)
    ensures
        out.view() == alert_tree::<C>(props@),
{
    let fragments = [props.alert_color.resolve()];
    assert(texts(fragments@) =~= seq![props.alert_color.fragment()]);
    let class = compose("alert", &fragments);
    Element::new(Tag::Div)
        .attr("class", class.as_str())
        .pass(&props.attributes)
        .child(Node::content(props.children))
        .into_node()
}

/// Rendering is repeatable: props with the same value give the same tree.
pub proof fn lemma_alert_repeatable<C>(first: AlertProps<C>, second: AlertProps<C>)
    requires
        first@ == second@,
    ensures
        alert_tree(first@) == alert_tree(second@),
{
}

} // verus!
