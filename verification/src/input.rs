//! Labelled inputs.

use crate::attr::{attrs_view, Attribute, AttributeView};
use crate::class::{compose, compose_spec, is_tidy, lemma_compose_tidy, texts};
use crate::node::{Element, ElementView, Node, NodeView, Tag};
use crate::variant::Variant;
use vstd::prelude::*;

verus! {

/// The size of a text input.
#[derive(Clone, Copy, Debug, PartialEq, Eq, Structural)]
pub enum InputSize {
    Default,
    Small,
    ExtraSmall,
    Large,
    Medium,
}

impl Default for InputSize {
    fn default() -> (out: Self)
        ensures
            out == InputSize::Default,
    {
        InputSize::Default
    }
}

impl Variant for InputSize {
    open spec fn members() -> Seq<Self> {
        seq![
            InputSize::Default,
            InputSize::Small,
            InputSize::ExtraSmall,
            InputSize::Large,
            InputSize::Medium,
        ]
    }

    open spec fn fragment(self) -> Seq<char> {
        match self {
            InputSize::Default => ""@,
            InputSize::Small => "input-sm"@,
            InputSize::ExtraSmall => "input-xs"@,
            InputSize::Large => "input-lg"@,
            InputSize::Medium => "input-md"@,
        }
    }

    open spec fn designated_default() -> Self {
        InputSize::Default
    }

    fn all() -> (out: Vec<Self>) {
        vec![
            InputSize::Default,
            InputSize::Small,
            InputSize::ExtraSmall,
            InputSize::Large,
            InputSize::Medium,
        ]
    }

    fn resolve(&self) -> (out: &'static str) {
        match self {
            InputSize::Default => "",
            InputSize::Small => "input-sm",
            InputSize::ExtraSmall => "input-xs",
            InputSize::Large => "input-lg",
            InputSize::Medium => "input-md",
        }
    }

    proof fn lemma_members_complete(v: Self) {
        let all = Self::members();
        match v {
            InputSize::Default => assert(all[0] == v),
            InputSize::Small => assert(all[1] == v),
            InputSize::ExtraSmall => assert(all[2] == v),
            InputSize::Large => assert(all[3] == v),
            InputSize::Medium => assert(all[4] == v),
        }
    }

    proof fn lemma_fragment_tidy(v: Self) {
        reveal_strlit("");
        reveal_strlit("input-sm");
        reveal_strlit("input-xs");
        reveal_strlit("input-lg");
        reveal_strlit("input-md");
    }

    proof fn lemma_fragments_distinct(a: Self, b: Self) {
        reveal_strlit("");
        reveal_strlit("input-sm");
        reveal_strlit("input-xs");
        reveal_strlit("input-lg");
        reveal_strlit("input-md");
        // Fragments of one length differ in a letter.
        assert(""@.len() == 0);
        assert("input-sm"@.len() == 8 && "input-sm"@[6] == 's');
        assert("input-xs"@.len() == 8 && "input-xs"@[6] == 'x');
        assert("input-lg"@.len() == 8 && "input-lg"@[6] == 'l');
        assert("input-md"@.len() == 8 && "input-md"@[6] == 'm');
    }
}

/// What a labelled input is rendered from.
#[derive(Debug, PartialEq, Eq)]
pub struct InputProps {
    /// The text above the input.
    pub label: String,
    pub input_size: InputSize,
    /// Passthrough attributes for the `input` element.
    pub attributes: Vec<Attribute>,
}

/// The mathematical value of [`InputProps`].
pub struct InputPropsView {
    pub label: Seq<char>,
    pub input_size: InputSize,
    pub attributes: Seq<AttributeView>,
}

impl View for InputProps {
    type V = InputPropsView;

    open spec fn view(&self) -> InputPropsView {
        InputPropsView {
            label: self.label@,
            input_size: self.input_size,
            attributes: attrs_view(self.attributes@),
        }
    }
}

impl InputProps {
    /// The props with what must be given, every variant at its default and
    /// no passthrough attribute.
    pub fn new(label: &str) -> (out: Self)
        ensures
            out@ == (InputPropsView {
                label: label@,
                input_size: InputSize::designated_default(),
                attributes: Seq::empty(),
            }),
    {
        let out = InputProps {
            label: String::from_str(label),
            input_size: InputSize::Default,
            attributes: Vec::new(),
        };
        assert(out@.attributes =~= Seq::empty());
        out
    }
}

/// The class string of a labelled input: the base class, then the fragment of each
/// variant that has one.
pub open spec fn input_class(props: InputPropsView) -> Seq<char> {
    compose_spec("input input-bordered"@, seq![props.input_size.fragment()])
}

/// The class string of a labelled input has no space at either end and none doubled,
/// whatever the variants are.
pub proof fn lemma_input_class_tidy(props: InputPropsView)
    ensures
        is_tidy(input_class(props)),
{
    reveal_strlit("input input-bordered");
    InputSize::lemma_fragment_tidy(props.input_size);
    lemma_compose_tidy("input input-bordered"@, seq![props.input_size.fragment()]);
}

/// The tree of a labelled input: the label text, then the control.
pub open spec fn input_tree<C>(props: InputPropsView) -> NodeView<C> {
    ElementView::new(Tag::Label)
        .attr("class"@, "flex flex-col gap-1"@)
        .child(
            ElementView::new(Tag::Span)
                .text(props.label)
                .node(),
        )
        .child(
            ElementView::new(Tag::Input)
                .attr("class"@, input_class(props))
                .pass(props.attributes)
                .node(),
        )
        .node()
}

/// Renders a labelled input.
pub fn Input<C>(props: InputProps) -> (out: Node<C>)
    ensures
        out.view() == input_tree::<C>(props@),
{
    let fragments = [props.input_size.resolve()];
    assert(texts(fragments@) =~= seq![props.input_size.fragment()]);
    let class = compose("input input-bordered", &fragments);
    Element::new(Tag::Label)
        .attr("class", "flex flex-col gap-1")
        .child(
            Element::new(Tag::Span)
                .text(props.label.as_str())
                .into_node(),
        )
        .child(
            Element::new(Tag::Input)
                .attr("class", class.as_str())
                .pass(&props.attributes)
                .into_node(),
        )
        .into_node()
}

/// Rendering is repeatable: props with the same value give the same tree.
pub proof fn lemma_input_repeatable<C>(first: InputProps, second: InputProps)
    requires
        first@ == second@,
    ensures
        input_tree::<C>(first@) == input_tree::<C>(second@),
{
}

} // verus!
