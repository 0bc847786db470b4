//! Labelled text areas.

use crate::attr::{attrs_view, Attribute, AttributeView};
use crate::class::{compose, compose_spec, is_tidy, lemma_compose_tidy, texts};
use crate::node::{Element, ElementView, Node, NodeView, Tag};
use crate::variant::Variant;
use vstd::prelude::*;

verus! {

/// The size of a text area.
#[derive(Clone, Copy, Debug, PartialEq, Eq, Structural)]
pub enum TextAreaSize {
    Default,
    ExtraSmall,
    Small,
    Medium,
    Large,
}

impl Default for TextAreaSize {
    fn default() -> (out: Self)
        ensures
            out == TextAreaSize::Default,
    {
        TextAreaSize::Default
    }
}

impl Variant for TextAreaSize {
    open spec fn members() -> Seq<Self> {
        seq![
            TextAreaSize::Default,
            TextAreaSize::ExtraSmall,
            TextAreaSize::Small,
            TextAreaSize::Medium,
            TextAreaSize::Large,
        ]
    }

    open spec fn fragment(self) -> Seq<char> {
        match self {
            TextAreaSize::Default => ""@,
            TextAreaSize::ExtraSmall => "textarea-xs"@,
            TextAreaSize::Small => "textarea-sm"@,
            TextAreaSize::Medium => "textarea-md"@,
            TextAreaSize::Large => "textarea-lg"@,
        }
    }

    open spec fn designated_default() -> Self {
        TextAreaSize::Default
    }

    fn all() -> (out: Vec<Self>) {
        vec![
            TextAreaSize::Default,
            TextAreaSize::ExtraSmall,
            TextAreaSize::Small,
            TextAreaSize::Medium,
            TextAreaSize::Large,
        ]
    }

    fn resolve(&self) -> (out: &'static str) {
        match self {
            TextAreaSize::Default => "",
            TextAreaSize::ExtraSmall => "textarea-xs",
            TextAreaSize::Small => "textarea-sm",
            TextAreaSize::Medium => "textarea-md",
            TextAreaSize::Large => "textarea-lg",
        }
    }

    proof fn lemma_members_complete(v: Self) {
        let all = Self::members();
        match v {
            TextAreaSize::Default => assert(all[0] == v),
            TextAreaSize::ExtraSmall => assert(all[1] == v),
            TextAreaSize::Small => assert(all[2] == v),
            TextAreaSize::Medium => assert(all[3] == v),
            TextAreaSize::Large => assert(all[4] == v),
        }
    }

    proof fn lemma_fragment_tidy(v: Self) {
        reveal_strlit("");
        reveal_strlit("textarea-xs");
        reveal_strlit("textarea-sm");
        reveal_strlit("textarea-md");
        reveal_strlit("textarea-lg");
    }

    proof fn lemma_fragments_distinct(a: Self, b: Self) {
        reveal_strlit("");
        reveal_strlit("textarea-xs");
        reveal_strlit("textarea-sm");
        reveal_strlit("textarea-md");
        reveal_strlit("textarea-lg");
        // Fragments of one length differ in a letter.
        assert(""@.len() == 0);
        assert("textarea-xs"@.len() == 11 && "textarea-xs"@[9] == 'x');
        assert("textarea-sm"@.len() == 11 && "textarea-sm"@[9] == 's');
        assert("textarea-md"@.len() == 11 && "textarea-md"@[9] == 'm');
        assert("textarea-lg"@.len() == 11 && "textarea-lg"@[9] == 'l');
    }
}

/// What a labelled text area is rendered from.
#[derive(Debug, PartialEq, Eq)]
pub struct TextAreaProps {
    /// The text above the text area.
    pub label: String,
    pub textarea_size: TextAreaSize,
    /// Passthrough attributes for the `textarea` element.
    pub attributes: Vec<Attribute>,
}

/// The mathematical value of [`TextAreaProps`].
pub struct TextAreaPropsView {
    pub label: Seq<char>,
    pub textarea_size: TextAreaSize,
    pub attributes: Seq<AttributeView>,
}

impl View for TextAreaProps {
    type V = TextAreaPropsView;

    open spec fn view(&self) -> TextAreaPropsView {
        TextAreaPropsView {
            label: self.label@,
            textarea_size: self.textarea_size,
            attributes: attrs_view(self.attributes@),
        }
    }
}

impl TextAreaProps {
    /// The props with what must be given, every variant at its default and
    /// no passthrough attribute.
    pub fn new(label: &str) -> (out: Self)
        ensures
            out@ == (TextAreaPropsView {
                label: label@,
                textarea_size: TextAreaSize::designated_default(),
                attributes: Seq::empty(),
            }),
    {
        let out = TextAreaProps {
            label: String::from_str(label),
            textarea_size: TextAreaSize::Default,
            attributes: Vec::new(),
        };
        assert(out@.attributes =~= Seq::empty());
        out
    }
}

/// The class string of a labelled text area: the base class, then the fragment of each
/// variant that has one.
pub open spec fn text_area_class(props: TextAreaPropsView) -> Seq<char> {
    compose_spec("textarea textarea-bordered"@, seq![props.textarea_size.fragment()])
}

/// The class string of a labelled text area has no space at either end and none doubled,
/// whatever the variants are.
pub proof fn lemma_text_area_class_tidy(props: TextAreaPropsView)
    ensures
        is_tidy(text_area_class(props)),
{
    reveal_strlit("textarea textarea-bordered");
    TextAreaSize::lemma_fragment_tidy(props.textarea_size);
    lemma_compose_tidy("textarea textarea-bordered"@, seq![props.textarea_size.fragment()]);
}

/// The tree of a labelled text area: the label text, then the control.
pub open spec fn text_area_tree<C>(props: TextAreaPropsView) -> NodeView<C> {
    ElementView::new(Tag::Label)
        .attr("class"@, "flex flex-col gap-1"@)
        .child(
            ElementView::new(Tag::Span)
                .text(props.label)
                .node(),
        )
        .child(
            ElementView::new(Tag::Textarea)
                .attr("class"@, text_area_class(props))
                .pass(props.attributes)
                .node(),
        )
        .node()
}

/// Renders a labelled text area.
pub fn TextArea<C>(props: TextAreaProps) -> (out: Node<C>)
    ensures
        out.view() == text_area_tree::<C>(props@),
{
    let fragments = [props.textarea_size.resolve()];
    assert(texts(fragments@) =~= seq![props.textarea_size.fragment()]);
    let class = compose("textarea textarea-bordered", &fragments);
    Element::new(Tag::Label)
        .attr("class", "flex flex-col gap-1")
        .child(
            Element::new(Tag::Span)
                .text(props.label.as_str())
                .into_node(),
        )
        .child(
            Element::new(Tag::Textarea)
                .attr("class", class.as_str())
                .pass(&props.attributes)
                .into_node(),
        )
        .into_node()
}

/// Rendering is repeatable: props with the same value give the same tree.
pub proof fn lemma_text_area_repeatable<C>(first: TextAreaProps, second: TextAreaProps)
    requires
        first@ == second@,
    ensures
        text_area_tree::<C>(first@) == text_area_tree::<C>(second@),
{
}

} // verus!
