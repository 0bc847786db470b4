//! Labelled select boxes and their options.

use crate::attr::{attrs_view, Attribute, AttributeView};
use crate::class::{compose, compose_spec, is_tidy, lemma_compose_tidy, texts};
use crate::node::{Element, ElementView, Node, NodeView, Tag};
use crate::variant::Variant;
use vstd::prelude::*;

verus! {

/// The size of a select box.
#[derive(Clone, Copy, Debug, PartialEq, Eq, Structural)]
pub enum SelectSize {
    Default,
    ExtraSmall,
    Small,
    Medium,
    Large,
}

impl Default for SelectSize {
    fn default() -> (out: Self)
        ensures
            out == SelectSize::Default,
    {
        SelectSize::Default
    }
}

impl Variant for SelectSize {
    open spec fn members() -> Seq<Self> {
        seq![
            SelectSize::Default,
            SelectSize::ExtraSmall,
            SelectSize::Small,
            SelectSize::Medium,
            SelectSize::Large,
        ]
    }

    open spec fn fragment(self) -> Seq<char> {
        match self {
            SelectSize::Default => ""@,
            SelectSize::ExtraSmall => "select-xs"@,
            SelectSize::Small => "select-sm"@,
            SelectSize::Medium => "select-md"@,
            SelectSize::Large => "select-lg"@,
        }
    }

    open spec fn designated_default() -> Self {
        SelectSize::Default
    }

    fn all() -> (out: Vec<Self>) {
        vec![
            SelectSize::Default,
            SelectSize::ExtraSmall,
            SelectSize::Small,
            SelectSize::Medium,
            SelectSize::Large,
        ]
    }

    fn resolve(&self) -> (out: &'static str) {
        match self {
            SelectSize::Default => "",
            SelectSize::ExtraSmall => "select-xs",
            SelectSize::Small => "select-sm",
            SelectSize::Medium => "select-md",
            SelectSize::Large => "select-lg",
        }
    }

    proof fn lemma_members_complete(v: Self) {
        let all = Self::members();
        match v {
            SelectSize::Default => assert(all[0] == v),
            SelectSize::ExtraSmall => assert(all[1] == v),
            SelectSize::Small => assert(all[2] == v),
            SelectSize::Medium => assert(all[3] == v),
            SelectSize::Large => assert(all[4] == v),
        }
    }

    proof fn lemma_fragment_tidy(v: Self) {
        reveal_strlit("");
        reveal_strlit("select-xs");
        reveal_strlit("select-sm");
        reveal_strlit("select-md");
        reveal_strlit("select-lg");
    }

    proof fn lemma_fragments_distinct(a: Self, b: Self) {
        reveal_strlit("");
        reveal_strlit("select-xs");
        reveal_strlit("select-sm");
        reveal_strlit("select-md");
        reveal_strlit("select-lg");
        // Fragments of one length differ in a letter.
        assert(""@.len() == 0);
        assert("select-xs"@.len() == 9 && "select-xs"@[7] == 'x');
        assert("select-sm"@.len() == 9 && "select-sm"@[7] == 's');
        assert("select-md"@.len() == 9 && "select-md"@[7] == 'm');
        assert("select-lg"@.len() == 9 && "select-lg"@[7] == 'l');
    }
}

/// What a labelled select box is rendered from.
#[derive(Debug, PartialEq, Eq)]
pub struct SelectProps<C> {
    pub children: C,
    /// The text above the select box.
    pub label: String,
    pub select_size: SelectSize,
    /// Passthrough attributes for the `select` element.
    pub attributes: Vec<Attribute>,
}

/// The mathematical value of [`SelectProps`].
pub struct SelectPropsView<C> {
    pub children: C,
    pub label: Seq<char>,
    pub select_size: SelectSize,
    pub attributes: Seq<AttributeView>,
}

impl<C> View for SelectProps<C> {
    type V = SelectPropsView<C>;

    open spec fn view(&self) -> SelectPropsView<C> {
        SelectPropsView {
            children: self.children,
            label: self.label@,
            select_size: self.select_size,
            attributes: attrs_view(self.attributes@),
        }
    }
}

impl<C> SelectProps<C> {
    /// The props with what must be given, every variant at its default and
    /// no passthrough attribute.
    pub fn new(children: C, label: &str) -> (out: Self)
        ensures
            out@ == (SelectPropsView {
                children,
                label: label@,
                select_size: SelectSize::designated_default(),
                attributes: Seq::empty(),
            }),
    {
        let out = SelectProps {
            children,
            label: String::from_str(label),
            select_size: SelectSize::Default,
            attributes: Vec::new(),
        };
        assert(out@.attributes =~= Seq::empty());
        out
    }
}

/// The class string of a labelled select box: the base class, then the fragment of each
/// variant that has one.
pub open spec fn select_class<C>(props: SelectPropsView<C>) -> Seq<char> {
    compose_spec("select select-bordered"@, seq![props.select_size.fragment()])
}

/// The class string of a labelled select box has no space at either end and none doubled,
/// whatever the variants are.
pub proof fn lemma_select_class_tidy<C>(props: SelectPropsView<C>)
    ensures
        is_tidy(select_class(props)),
{
    reveal_strlit("select select-bordered");
    SelectSize::lemma_fragment_tidy(props.select_size);
    lemma_compose_tidy("select select-bordered"@, seq![props.select_size.fragment()]);
}

/// The tree of a labelled select box: the label text, then the control around
/// its options.
pub open spec fn select_tree<C>(props: SelectPropsView<C>) -> NodeView<C> {
    ElementView::new(Tag::Label)
        .attr("class"@, "flex flex-col gap-1"@)
        .child(
            ElementView::new(Tag::Span)
                .text(props.label)
                .node(),
        )
        .child(
            ElementView::new(Tag::Select)
                .attr("class"@, select_class(props))
                .pass(props.attributes)
                .child(NodeView::Content(props.children))
                .node(),
        )
        .node()
}

/// Renders a labelled select box.
pub fn Select<C>(props: SelectProps<C>) -> (out: Node<C>)
    ensures
        out.view() == select_tree::<C>(props@),
{
    let fragments = [props.select_size.resolve()];
    assert(texts(fragments@) =~= seq![props.select_size.fragment()]);
    let class = compose("select select-bordered", &fragments);
    Element::new(Tag::Label)
        .attr("class", "flex flex-col gap-1")
        .child(
            Element::new(Tag::Span)
                .text(props.label.as_str())
                .into_node(),
        )
        .child(
            Element::new(Tag::Select)
                .attr("class", class.as_str())
                .pass(&props.attributes)
                .child(Node::content(props.children))
                .into_node(),
        )
        .into_node()
}

/// Rendering is repeatable: props with the same value give the same tree.
pub proof fn lemma_select_repeatable<C>(first: SelectProps<C>, second: SelectProps<C>)
    requires
        first@ == second@,
    ensures
        select_tree(first@) == select_tree(second@),
{
}

/// What an option of a select box is rendered from.
#[derive(Debug, PartialEq, Eq)]
pub struct OptionProps<C> {
    pub children: C,
    /// Passthrough attributes for the `option` element.
    pub attributes: Vec<Attribute>,
}

/// The mathematical value of [`OptionProps`].
pub struct OptionPropsView<C> {
    pub children: C,
    pub attributes: Seq<AttributeView>,
}

impl<C> View for OptionProps<C> {
    type V = OptionPropsView<C>;

    open spec fn view(&self) -> OptionPropsView<C> {
        OptionPropsView {
            children: self.children,
            attributes: attrs_view(self.attributes@),
        }
    }
}

impl<C> OptionProps<C> {
    /// The props with what must be given, every variant at its default and
    /// no passthrough attribute.
    pub fn new(children: C) -> (out: Self)
        ensures
            out@ == (OptionPropsView {
                children,
                attributes: Seq::empty(),
            }),
    {
        let out = OptionProps {
            children,
            attributes: Vec::new(),
        };
        assert(out@.attributes =~= Seq::empty());
        out
    }
}

/// The tree of an option: it has the passthrough attributes and no other.
pub open spec fn select_option_tree<C>(props: OptionPropsView<C>) -> NodeView<C> {
    ElementView::new(Tag::Option)
        .pass(props.attributes)
        .child(NodeView::Content(props.children))
        .node()
}

/// Renders an option of a select box.
pub fn SelectOption<C>(props: OptionProps<C>) -> (out: Node<C>)
    ensures
        out.view() == select_option_tree::<C>(props@),
{
    Element::new(Tag::Option)
        .pass(&props.attributes)
        .child(Node::content(props.children))
        .into_node()
}

/// Rendering is repeatable: props with the same value give the same tree.
pub proof fn lemma_select_option_repeatable<C>(first: OptionProps<C>, second: OptionProps<C>)
    requires
        first@ == second@,
    ensures
        select_option_tree(first@) == select_option_tree(second@),
{
}

} // verus!
