//! Labelled range sliders.

use crate::attr::{attrs_view, Attribute, AttributeView};
use crate::class::{compose, compose_spec, is_tidy, lemma_compose_tidy, texts};
use crate::node::{Element, ElementView, Node, NodeView, Tag};
use crate::variant::Variant;
use vstd::prelude::*;

verus! {

/// The colour of a range slider.
#[derive(Clone, Copy, Debug, PartialEq, Eq, Structural)]
pub enum RangeColor {
    Default,
    Primary,
    Secondary,
    Accent,
    Info,
    Success,
    Warning,
    Error,
}

impl Default for RangeColor {
    fn default() -> (out: Self)
        ensures
            out == RangeColor::Default,
    {
        RangeColor::Default
    }
}

impl Variant for RangeColor {
    open spec fn members() -> Seq<Self> {
        seq![
            RangeColor::Default,
            RangeColor::Primary,
            RangeColor::Secondary,
            RangeColor::Accent,
            RangeColor::Info,
            RangeColor::Success,
            RangeColor::Warning,
            RangeColor::Error,
        ]
    }

    open spec fn fragment(self) -> Seq<char> {
        match self {
            RangeColor::Default => ""@,
            RangeColor::Primary => "range-primary"@,
            RangeColor::Secondary => "range-secondary"@,
            RangeColor::Accent => "range-accent"@,
            RangeColor::Info => "range-info"@,
            RangeColor::Success => "range-success"@,
            RangeColor::Warning => "range-warning"@,
            RangeColor::Error => "range-error"@,
        }
    }

    open spec fn designated_default() -> Self {
        RangeColor::Default
    }

    fn all() -> (out: Vec<Self>) {
        vec![
            RangeColor::Default,
            RangeColor::Primary,
            RangeColor::Secondary,
            RangeColor::Accent,
            RangeColor::Info,
            RangeColor::Success,
            RangeColor::Warning,
            RangeColor::Error,
        ]
    }

    fn resolve(&self) -> (out: &'static str) {
        match self {
            RangeColor::Default => "",
            RangeColor::Primary => "range-primary",
            RangeColor::Secondary => "range-secondary",
            RangeColor::Accent => "range-accent",
            RangeColor::Info => "range-info",
            RangeColor::Success => "range-success",
            RangeColor::Warning => "range-warning",
            RangeColor::Error => "range-error",
        }
    }

    proof fn lemma_members_complete(v: Self) {
        let all = Self::members();
        match v {
            RangeColor::Default => assert(all[0] == v),
            RangeColor::Primary => assert(all[1] == v),
            RangeColor::Secondary => assert(all[2] == v),
            RangeColor::Accent => assert(all[3] == v),
            RangeColor::Info => assert(all[4] == v),
            RangeColor::Success => assert(all[5] == v),
            RangeColor::Warning => assert(all[6] == v),
            RangeColor::Error => assert(all[7] == v),
        }
    }

    proof fn lemma_fragment_tidy(v: Self) {
        reveal_strlit("");
        reveal_strlit("range-primary");
        reveal_strlit("range-secondary");
        reveal_strlit("range-accent");
        reveal_strlit("range-info");
        reveal_strlit("range-success");
        reveal_strlit("range-warning");
        reveal_strlit("range-error");
    }

    proof fn lemma_fragments_distinct(a: Self, b: Self) {
        reveal_strlit("");
        reveal_strlit("range-primary");
        reveal_strlit("range-secondary");
        reveal_strlit("range-accent");
        reveal_strlit("range-info");
        reveal_strlit("range-success");
        reveal_strlit("range-warning");
        reveal_strlit("range-error");
        // Fragments of one length differ in a letter.
        assert(""@.len() == 0);
        assert("range-primary"@.len() == 13 && "range-primary"@[6] == 'p');
        assert("range-secondary"@.len() == 15);
        assert("range-accent"@.len() == 12);
        assert("range-info"@.len() == 10);
        assert("range-success"@.len() == 13 && "range-success"@[6] == 's');
        assert("range-warning"@.len() == 13 && "range-warning"@[6] == 'w');
        assert("range-error"@.len() == 11);
    }
}

/// The size of a range slider.
#[derive(Clone, Copy, Debug, PartialEq, Eq, Structural)]
pub enum RangeSize {
    Default,
    ExtraSmall,
    Small,
    Medium,
    Large,
}

impl Default for RangeSize {
    fn default() -> (out: Self)
        ensures
            out == RangeSize::Default,
    {
        RangeSize::Default
    }
}

impl Variant for RangeSize {
    open spec fn members() -> Seq<Self> {
        seq![
            RangeSize::Default,
            RangeSize::ExtraSmall,
            RangeSize::Small,
            RangeSize::Medium,
            RangeSize::Large,
        ]
    }

    open spec fn fragment(self) -> Seq<char> {
        match self {
            RangeSize::Default => ""@,
            RangeSize::ExtraSmall => "range-xs"@,
            RangeSize::Small => "range-sm"@,
            RangeSize::Medium => "range-md"@,
            RangeSize::Large => "range-lg"@,
        }
    }

    open spec fn designated_default() -> Self {
        RangeSize::Default
    }

    fn all() -> (out: Vec<Self>) {
        vec![
            RangeSize::Default,
            RangeSize::ExtraSmall,
            RangeSize::Small,
            RangeSize::Medium,
            RangeSize::Large,
        ]
    }

    fn resolve(&self) -> (out: &'static str) {
        match self {
            RangeSize::Default => "",
            RangeSize::ExtraSmall => "range-xs",
            RangeSize::Small => "range-sm",
            RangeSize::Medium => "range-md",
            RangeSize::Large => "range-lg",
        }
    }

    proof fn lemma_members_complete(v: Self) {
        let all = Self::members();
        match v {
            RangeSize::Default => assert(all[0] == v),
            RangeSize::ExtraSmall => assert(all[1] == v),
            RangeSize::Small => assert(all[2] == v),
            RangeSize::Medium => assert(all[3] == v),
            RangeSize::Large => assert(all[4] == v),
        }
    }

    proof fn lemma_fragment_tidy(v: Self) {
        reveal_strlit("");
        reveal_strlit("range-xs");
        reveal_strlit("range-sm");
        reveal_strlit("range-md");
        reveal_strlit("range-lg");
    }

    proof fn lemma_fragments_distinct(a: Self, b: Self) {
        reveal_strlit("");
        reveal_strlit("range-xs");
        reveal_strlit("range-sm");
        reveal_strlit("range-md");
        reveal_strlit("range-lg");
        // Fragments of one length differ in a letter.
        assert(""@.len() == 0);
        assert("range-xs"@.len() == 8 && "range-xs"@[6] == 'x');
        assert("range-sm"@.len() == 8 && "range-sm"@[6] == 's');
        assert("range-md"@.len() == 8 && "range-md"@[6] == 'm');
        assert("range-lg"@.len() == 8 && "range-lg"@[6] == 'l');
    }
}

/// What a labelled range slider is rendered from.
#[derive(Debug, PartialEq, Eq)]
pub struct RangeProps {
    /// The text above the slider.
    pub label: String,
    pub range_color: RangeColor,
    pub range_size: RangeSize,
    /// Passthrough attributes for the `input` element.
    pub attributes: Vec<Attribute>,
}

/// The mathematical value of [`RangeProps`].
pub struct RangePropsView {
    pub label: Seq<char>,
    pub range_color: RangeColor,
    pub range_size: RangeSize,
    pub attributes: Seq<AttributeView>,
}

impl View for RangeProps {
    type V = RangePropsView;

    open spec fn view(&self) -> RangePropsView {
        RangePropsView {
            label: self.label@,
            range_color: self.range_color,
            range_size: self.range_size,
            attributes: attrs_view(self.attributes@),
        }
    }
}

impl RangeProps {
    /// The props with what must be given, every variant at its default and
    /// no passthrough attribute.
    pub fn new(label: &str) -> (out: Self)
        ensures
            out@ == (RangePropsView {
                label: label@,
                range_color: RangeColor::designated_default(),
                range_size: RangeSize::designated_default(),
                attributes: Seq::empty(),
            }),
    {
        let out = RangeProps {
            label: String::from_str(label),
            range_color: RangeColor::Default,
            range_size: RangeSize::Default,
            attributes: Vec::new(),
        };
        assert(out@.attributes =~= Seq::empty());
        out
    }
}

/// The class string of a labelled range slider: the base class, then the fragment of each
/// variant that has one.
pub open spec fn range_class(props: RangePropsView) -> Seq<char> {
    compose_spec("range"@, seq![props.range_color.fragment(), props.range_size.fragment()])
}

/// The class string of a labelled range slider has no space at either end and none doubled,
/// whatever the variants are.
pub proof fn lemma_range_class_tidy(props: RangePropsView)
    ensures
        is_tidy(range_class(props)),
{
    reveal_strlit("range");
    RangeColor::lemma_fragment_tidy(props.range_color);
    RangeSize::lemma_fragment_tidy(props.range_size);
    lemma_compose_tidy("range"@, seq![props.range_color.fragment(), props.range_size.fragment()]);
}

/// The tree of a labelled range slider: the label text, then the control.
pub open spec fn range_tree<C>(props: RangePropsView) -> NodeView<C> {
    ElementView::new(Tag::Label)
        .attr("class"@, "flex flex-col gap-1"@)
        .child(
            ElementView::new(Tag::Span)
                .text(props.label)
                .node(),
        )
        .child(
            ElementView::new(Tag::Input)
                .attr("type"@, "range"@)
                .attr("class"@, range_class(props))
                .pass(props.attributes)
                .node(),
        )
        .node()
}

/// Renders a labelled range slider.
pub fn Range<C>(props: RangeProps) -> (out: Node<C>)
    ensures
        out.view() == range_tree::<C>(props@),
{
    let fragments = [props.range_color.resolve(), props.range_size.resolve()];
    assert(texts(fragments@) =~= seq![props.range_color.fragment(), props.range_size.fragment()]);
    let class = compose("range", &fragments);
    Element::new(Tag::Label)
        .attr("class", "flex flex-col gap-1")
        .child(
            Element::new(Tag::Span)
                .text(props.label.as_str())
                .into_node(),
        )
        .child(
            Element::new(Tag::Input)
                .attr("type", "range")
                .attr("class", class.as_str())
                .pass(&props.attributes)
                .into_node(),
        )
        .into_node()
}

/// Rendering is repeatable: props with the same value give the same tree.
pub proof fn lemma_range_repeatable<C>(first: RangeProps, second: RangeProps)
    requires
        first@ == second@,
    ensures
        range_tree::<C>(first@) == range_tree::<C>(second@),
{
}

} // verus!
