//! Labelled checkboxes.

use crate::attr::{attrs_view, Attribute, AttributeView};
use crate::class::{compose, compose_spec, is_tidy, lemma_compose_tidy, texts};
use crate::node::{Element, ElementView, Node, NodeView, Tag};
use crate::variant::Variant;
use vstd::prelude::*;

verus! {

/// The colour scheme of a checkbox.
#[derive(Clone, Copy, Debug, PartialEq, Eq, Structural)]
pub enum CheckBoxScheme {
    Default,
    Primary,
    Secondary,
    Accent,
    Info,
    Success,
    Warning,
    Error,
}

impl Default for CheckBoxScheme {
    fn default() -> (out: Self)
        ensures
            out == CheckBoxScheme::Default,
    {
        CheckBoxScheme::Default
    }
}

impl Variant for CheckBoxScheme {
    open spec fn members() -> Seq<Self> {
        seq![
            CheckBoxScheme::Default,
            CheckBoxScheme::Primary,
            CheckBoxScheme::Secondary,
            CheckBoxScheme::Accent,
            CheckBoxScheme::Info,
            CheckBoxScheme::Success,
            CheckBoxScheme::Warning,
            CheckBoxScheme::Error,
        ]
    }

    open spec fn fragment(self) -> Seq<char> {
        match self {
            CheckBoxScheme::Default => ""@,
            CheckBoxScheme::Primary => "checkbox-primary"@,
            CheckBoxScheme::Secondary => "checkbox-secondary"@,
            CheckBoxScheme::Accent => "checkbox-accent"@,
            CheckBoxScheme::Info => "checkbox-info"@,
            CheckBoxScheme::Success => "checkbox-success"@,
            CheckBoxScheme::Warning => "checkbox-warning"@,
            CheckBoxScheme::Error => "checkbox-error"@,
        }
    }

    open spec fn designated_default() -> Self {
        CheckBoxScheme::Default
    }

    fn all() -> (out: Vec<Self>) {
        vec![
            CheckBoxScheme::Default,
            CheckBoxScheme::Primary,
            CheckBoxScheme::Secondary,
            CheckBoxScheme::Accent,
            CheckBoxScheme::Info,
            CheckBoxScheme::Success,
            CheckBoxScheme::Warning,
            CheckBoxScheme::Error,
        ]
    }

    fn resolve(&self) -> (out: &'static str) {
        match self {
            CheckBoxScheme::Default => "",
            CheckBoxScheme::Primary => "checkbox-primary",
            CheckBoxScheme::Secondary => "checkbox-secondary",
            CheckBoxScheme::Accent => "checkbox-accent",
            CheckBoxScheme::Info => "checkbox-info",
            CheckBoxScheme::Success => "checkbox-success",
            CheckBoxScheme::Warning => "checkbox-warning",
            CheckBoxScheme::Error => "checkbox-error",
        }
    }

    proof fn lemma_members_complete(v: Self) {
        let all = Self::members();
        match v {
            CheckBoxScheme::Default => assert(all[0] == v),
            CheckBoxScheme::Primary => assert(all[1] == v),
            CheckBoxScheme::Secondary => assert(all[2] == v),
            CheckBoxScheme::Accent => assert(all[3] == v),
            CheckBoxScheme::Info => assert(all[4] == v),
            CheckBoxScheme::Success => assert(all[5] == v),
            CheckBoxScheme::Warning => assert(all[6] == v),
            CheckBoxScheme::Error => assert(all[7] == v),
        }
    }

    proof fn lemma_fragment_tidy(v: Self) {
        reveal_strlit("");
        reveal_strlit("checkbox-primary");
        reveal_strlit("checkbox-secondary");
        reveal_strlit("checkbox-accent");
        reveal_strlit("checkbox-info");
        reveal_strlit("checkbox-success");
        reveal_strlit("checkbox-warning");
        reveal_strlit("checkbox-error");
    }

    proof fn lemma_fragments_distinct(a: Self, b: Self) {
        reveal_strlit("");
        reveal_strlit("checkbox-primary");
        reveal_strlit("checkbox-secondary");
        reveal_strlit("checkbox-accent");
        reveal_strlit("checkbox-info");
        reveal_strlit("checkbox-success");
        reveal_strlit("checkbox-warning");
        reveal_strlit("checkbox-error");
        // Fragments of one length differ in a letter.
        assert(""@.len() == 0);
        assert("checkbox-primary"@.len() == 16 && "checkbox-primary"@[9] == 'p');
        assert("checkbox-secondary"@.len() == 18);
        assert("checkbox-accent"@.len() == 15);
        assert("checkbox-info"@.len() == 13);
        assert("checkbox-success"@.len() == 16 && "checkbox-success"@[9] == 's');
        assert("checkbox-warning"@.len() == 16 && "checkbox-warning"@[9] == 'w');
        assert("checkbox-error"@.len() == 14);
    }
}

/// The size of a checkbox.
#[derive(Clone, Copy, Debug, PartialEq, Eq, Structural)]
pub enum CheckBoxSize {
    Default,
    ExtraSmall,
    Small,
    Medium,
    Large,
}

impl Default for CheckBoxSize {
    fn default() -> (out: Self)
        ensures
            out == CheckBoxSize::Default,
    {
        CheckBoxSize::Default
    }
}

impl Variant for CheckBoxSize {
    open spec fn members() -> Seq<Self> {
        seq![
            CheckBoxSize::Default,
            CheckBoxSize::ExtraSmall,
            CheckBoxSize::Small,
            CheckBoxSize::Medium,
            CheckBoxSize::Large,
        ]
    }

    open spec fn fragment(self) -> Seq<char> {
        match self {
            CheckBoxSize::Default => ""@,
            CheckBoxSize::ExtraSmall => "checkbox-xs"@,
            CheckBoxSize::Small => "checkbox-sm"@,
            CheckBoxSize::Medium => "checkbox-md"@,
            CheckBoxSize::Large => "checkbox-lg"@,
        }
    }

    open spec fn designated_default() -> Self {
        CheckBoxSize::Default
    }

    fn all() -> (out: Vec<Self>) {
        vec![
            CheckBoxSize::Default,
            CheckBoxSize::ExtraSmall,
            CheckBoxSize::Small,
            CheckBoxSize::Medium,
            CheckBoxSize::Large,
        ]
    }

    fn resolve(&self) -> (out: &'static str) {
        match self {
            CheckBoxSize::Default => "",
            CheckBoxSize::ExtraSmall => "checkbox-xs",
            CheckBoxSize::Small => "checkbox-sm",
            CheckBoxSize::Medium => "checkbox-md",
            CheckBoxSize::Large => "checkbox-lg",
        }
    }

    proof fn lemma_members_complete(v: Self) {
        let all = Self::members();
        match v {
            CheckBoxSize::Default => assert(all[0] == v),
            CheckBoxSize::ExtraSmall => assert(all[1] == v),
            CheckBoxSize::Small => assert(all[2] == v),
            CheckBoxSize::Medium => assert(all[3] == v),
            CheckBoxSize::Large => assert(all[4] == v),
        }
    }

    proof fn lemma_fragment_tidy(v: Self) {
        reveal_strlit("");
        reveal_strlit("checkbox-xs");
        reveal_strlit("checkbox-sm");
        reveal_strlit("checkbox-md");
        reveal_strlit("checkbox-lg");
    }

    proof fn lemma_fragments_distinct(a: Self, b: Self) {
        reveal_strlit("");
        reveal_strlit("checkbox-xs");
        reveal_strlit("checkbox-sm");
        reveal_strlit("checkbox-md");
        reveal_strlit("checkbox-lg");
        // Fragments of one length differ in a letter.
        assert(""@.len() == 0);
        assert("checkbox-xs"@.len() == 11 && "checkbox-xs"@[9] == 'x');
        assert("checkbox-sm"@.len() == 11 && "checkbox-sm"@[9] == 's');
        assert("checkbox-md"@.len() == 11 && "checkbox-md"@[9] == 'm');
        assert("checkbox-lg"@.len() == 11 && "checkbox-lg"@[9] == 'l');
    }
}

/// What a labelled checkbox is rendered from.
#[derive(Debug, PartialEq, Eq)]
pub struct CheckBoxProps {
    /// The text beside the checkbox.
    pub label: String,
    pub checkbox_size: CheckBoxSize,
    pub checkbox_scheme: CheckBoxScheme,
    /// Passthrough attributes for the `input` element.
    pub attributes: Vec<Attribute>,
}

/// The mathematical value of [`CheckBoxProps`].
pub struct CheckBoxPropsView {
    pub label: Seq<char>,
    pub checkbox_size: CheckBoxSize,
    pub checkbox_scheme: CheckBoxScheme,
    pub attributes: Seq<AttributeView>,
}

impl View for CheckBoxProps {
    type V = CheckBoxPropsView;

    open spec fn view(&self) -> CheckBoxPropsView {
        CheckBoxPropsView {
            label: self.label@,
            checkbox_size: self.checkbox_size,
            checkbox_scheme: self.checkbox_scheme,
            attributes: attrs_view(self.attributes@),
        }
    }
}

impl CheckBoxProps {
    /// The props with what must be given, every variant at its default and
    /// no passthrough attribute.
    pub fn new(label: &str) -> (out: Self)
        ensures
            out@ == (CheckBoxPropsView {
                label: label@,
                checkbox_size: CheckBoxSize::designated_default(),
                checkbox_scheme: CheckBoxScheme::designated_default(),
                attributes: Seq::empty(),
            }),
    {
        let out = CheckBoxProps {
            label: String::from_str(label),
            checkbox_size: CheckBoxSize::Default,
            checkbox_scheme: CheckBoxScheme::Default,
            attributes: Vec::new(),
        };
        assert(out@.attributes =~= Seq::empty());
        out
    }
}

/// The class string of a labelled checkbox: the base class, then the fragment of each
/// variant that has one.
pub open spec fn check_box_class(props: CheckBoxPropsView) -> Seq<char> {
    compose_spec(
        "checkbox"@,
        seq![props.checkbox_scheme.fragment(), props.checkbox_size.fragment()],
    )
}

/// The class string of a labelled checkbox has no space at either end and none doubled,
/// whatever the variants are.
pub proof fn lemma_check_box_class_tidy(props: CheckBoxPropsView)
    ensures
        is_tidy(check_box_class(props)),
{
    reveal_strlit("checkbox");
    CheckBoxScheme::lemma_fragment_tidy(props.checkbox_scheme);
    CheckBoxSize::lemma_fragment_tidy(props.checkbox_size);
    lemma_compose_tidy(
        "checkbox"@,
        seq![props.checkbox_scheme.fragment(), props.checkbox_size.fragment()],
    );
}

/// The tree of a labelled checkbox: the native control and, beside it, a
/// `span` with the label text, both in a `label`.
pub open spec fn check_box_tree<C>(props: CheckBoxPropsView) -> NodeView<C> {
    ElementView::new(Tag::Label)
        .attr("class"@, "flex items-center gap-2 cursor-pointer"@)
        .child(
            ElementView::new(Tag::Input)
                .attr("type"@, "checkbox"@)
                .attr("class"@, check_box_class(props))
                .pass(props.attributes)
                .node(),
        )
        .child(
            ElementView::new(Tag::Span)
                .text(props.label)
                .node(),
        )
        .node()
}

/// Renders a labelled checkbox.
pub fn CheckBox<C>(props: CheckBoxProps) -> (out: Node<C>)
    ensures
        out.view() == check_box_tree::<C>(props@),
{
    let fragments = [props.checkbox_scheme.resolve(), props.checkbox_size.resolve()];
    assert(texts(fragments@) =~= seq![
        props.checkbox_scheme.fragment(),
        props.checkbox_size.fragment(),
    ]);
    let class = compose("checkbox", &fragments);
    Element::new(Tag::Label)
        .attr("class", "flex items-center gap-2 cursor-pointer")
        .child(
            Element::new(Tag::Input)
                .attr("type", "checkbox")
                .attr("class", class.as_str())
                .pass(&props.attributes)
                .into_node(),
        )
        .child(
            Element::new(Tag::Span)
                .text(props.label.as_str())
                .into_node(),
        )
        .into_node()
}

/// Rendering is repeatable: props with the same value give the same tree.
pub proof fn lemma_check_box_repeatable<C>(first: CheckBoxProps, second: CheckBoxProps)
    requires
        first@ == second@,
    ensures
        check_box_tree::<C>(first@) == check_box_tree::<C>(second@),
{
}

} // verus!
