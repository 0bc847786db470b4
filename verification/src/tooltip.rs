//! Tooltips.

use crate::attr::{attrs_view, Attribute, AttributeView};
use crate::class::{compose, compose_spec, is_tidy, lemma_compose_tidy, texts};
use crate::node::{Element, ElementView, Node, NodeView, Tag};
use crate::variant::Variant;
use vstd::prelude::*;

verus! {

/// The colour of a tooltip.
#[derive(Clone, Copy, Debug, PartialEq, Eq, Structural)]
pub enum ToolTipColor {
    Default,
    Warn,
    Info,
    Error,
    Success,
}

impl Default for ToolTipColor {
    fn default() -> (out: Self)
        ensures
            out == ToolTipColor::Default,
    {
        ToolTipColor::Default
    }
}

impl Variant for ToolTipColor {
    open spec fn members() -> Seq<Self> {
        seq![
            ToolTipColor::Default,
            ToolTipColor::Warn,
            ToolTipColor::Info,
            ToolTipColor::Error,
            ToolTipColor::Success,
        ]
    }

    open spec fn fragment(self) -> Seq<char> {
        match self {
            ToolTipColor::Default => ""@,
            ToolTipColor::Warn => "tooltip-warning"@,
            ToolTipColor::Info => "tooltip-info"@,
            ToolTipColor::Error => "tooltip-error"@,
            ToolTipColor::Success => "tooltip-success"@,
        }
    }

    open spec fn designated_default() -> Self {
        ToolTipColor::Default
    }

    fn all() -> (out: Vec<Self>) {
        vec![
            ToolTipColor::Default,
            ToolTipColor::Warn,
            ToolTipColor::Info,
            ToolTipColor::Error,
            ToolTipColor::Success,
        ]
    }

    fn resolve(&self) -> (out: &'static str) {
        match self {
            ToolTipColor::Default => "",
            ToolTipColor::Warn => "tooltip-warning",
            ToolTipColor::Info => "tooltip-info",
            ToolTipColor::Error => "tooltip-error",
            ToolTipColor::Success => "tooltip-success",
        }
    }

    proof fn lemma_members_complete(v: Self) {
        let all = Self::members();
        match v {
            ToolTipColor::Default => assert(all[0] == v),
            ToolTipColor::Warn => assert(all[1] == v),
            ToolTipColor::Info => assert(all[2] == v),
            ToolTipColor::Error => assert(all[3] == v),
            ToolTipColor::Success => assert(all[4] == v),
        }
    }

    proof fn lemma_fragment_tidy(v: Self) {
        reveal_strlit("");
        reveal_strlit("tooltip-warning");
        reveal_strlit("tooltip-info");
        reveal_strlit("tooltip-error");
        reveal_strlit("tooltip-success");
    }

    proof fn lemma_fragments_distinct(a: Self, b: Self) {
        reveal_strlit("");
        reveal_strlit("tooltip-warning");
        reveal_strlit("tooltip-info");
        reveal_strlit("tooltip-error");
        reveal_strlit("tooltip-success");
        // Fragments of one length differ in a letter.
        assert(""@.len() == 0);
        assert("tooltip-warning"@.len() == 15 && "tooltip-warning"@[8] == 'w');
        assert("tooltip-info"@.len() == 12);
        assert("tooltip-error"@.len() == 13);
        assert("tooltip-success"@.len() == 15 && "tooltip-success"@[8] == 's');
    }
}

/// What a tooltip is rendered from.
#[derive(Debug, PartialEq, Eq)]
pub struct ToolTipProps<C> {
    /// The text of the tip.
    pub text: String,
    pub children: C,
    pub tooltip_color: ToolTipColor,
    /// Passthrough attributes for the `div` element.
    pub attributes: Vec<Attribute>,
}

/// The mathematical value of [`ToolTipProps`].
pub struct ToolTipPropsView<C> {
    pub text: Seq<char>,
    pub children: C,
    pub tooltip_color: ToolTipColor,
    pub attributes: Seq<AttributeView>,
}

impl<C> View for ToolTipProps<C> {
    type V = ToolTipPropsView<C>;

    open spec fn view(&self) -> ToolTipPropsView<C> {
        ToolTipPropsView {
            text: self.text@,
            children: self.children,
            tooltip_color: self.tooltip_color,
            attributes: attrs_view(self.attributes@),
        }
    }
}

impl<C> ToolTipProps<C> {
    /// The props with what must be given, every variant at its default and
    /// no passthrough attribute.
    pub fn new(text: &str, children: C) -> (out: Self)
        ensures
            out@ == (ToolTipPropsView {
                text: text@,
                children,
                tooltip_color: ToolTipColor::designated_default(),
                attributes: Seq::empty(),
            }),
    {
        let out = ToolTipProps {
            text: String::from_str(text),
            children,
            tooltip_color: ToolTipColor::Default,
            attributes: Vec::new(),
        };
        assert(out@.attributes =~= Seq::empty());
        out
    }
}

/// The class string of a tooltip: the base class, then the fragment of each
/// variant that has one.
pub open spec fn tool_tip_class<C>(props: ToolTipPropsView<C>) -> Seq<char> {
    compose_spec("tooltip"@, seq![props.tooltip_color.fragment()])
}

/// The class string of a tooltip has no space at either end and none doubled,
/// whatever the variants are.
pub proof fn lemma_tool_tip_class_tidy<C>(props: ToolTipPropsView<C>)
    ensures
        is_tidy(tool_tip_class(props)),
{
    reveal_strlit("tooltip");
    ToolTipColor::lemma_fragment_tidy(props.tooltip_color);
    lemma_compose_tidy("tooltip"@, seq![props.tooltip_color.fragment()]);
}

/// The tree of a tooltip: a `div` that carries the tip as `data-tip`, around
/// the content.
pub open spec fn tool_tip_tree<C>(props: ToolTipPropsView<C>) -> NodeView<C> {
    ElementView::new(Tag::Div)
        .attr("class"@, tool_tip_class(props))
        .attr("data-tip"@, props.text)
        .pass(props.attributes)
        .child(NodeView::Content(props.children))
        .node()
}

/// Renders a tooltip around the content.
pub fn ToolTip<C>(props: ToolTipProps<C>) -> (out: Node<C>)
    ensures
        out.view() == tool_tip_tree::<C>(props@),
{
    let fragments = [props.tooltip_color.resolve()];
    assert(texts(fragments@) =~= seq![props.tooltip_color.fragment()]);
    let class = compose("tooltip", &fragments);
    Element::new(Tag::Div)
        .attr("class", class.as_str())
        .attr("data-tip", props.text.as_str())
        .pass(&props.attributes)
        .child(Node::content(props.children))
        .into_node()
}

/// Rendering is repeatable: props with the same value give the same tree.
pub proof fn lemma_tool_tip_repeatable<C>(first: ToolTipProps<C>, second: ToolTipProps<C>)
    requires
        first@ == second@,
    ensures
        tool_tip_tree(first@) == tool_tip_tree(second@),
{
}

} // verus!
