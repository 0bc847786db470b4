//! Buttons.

use crate::attr::{attrs_view, Attribute, AttributeView};
use crate::class::{compose, compose_spec, is_tidy, lemma_compose_tidy, texts};
use crate::node::{Element, ElementView, Node, NodeView, Tag};
use crate::variant::Variant;
use vstd::prelude::*;

verus! {

/// The colour scheme of a button.
#[derive(Clone, Copy, Debug, PartialEq, Eq, Structural)]
pub enum ButtonScheme {
    Default,
    Neutral,
    Primary,
    Secondary,
    Accent,
    Info,
    Success,
    Warning,
    Error,
}

impl Default for ButtonScheme {
    fn default() -> (out: Self)
        ensures
            out == ButtonScheme::Default,
    {
        ButtonScheme::Default
    }
}

impl Variant for ButtonScheme {
    open spec fn members() -> Seq<Self> {
        seq![
            ButtonScheme::Default,
            ButtonScheme::Neutral,
            ButtonScheme::Primary,
            ButtonScheme::Secondary,
            ButtonScheme::Accent,
            ButtonScheme::Info,
            ButtonScheme::Success,
            ButtonScheme::Warning,
            ButtonScheme::Error,
        ]
    }

    open spec fn fragment(self) -> Seq<char> {
        match self {
            ButtonScheme::Default => ""@,
            ButtonScheme::Neutral => "btn-neutral"@,
            ButtonScheme::Primary => "btn-primary"@,
            ButtonScheme::Secondary => "btn-secondary"@,
            ButtonScheme::Accent => "btn-accent"@,
            ButtonScheme::Info => "btn-info"@,
            ButtonScheme::Success => "btn-success"@,
            ButtonScheme::Warning => "btn-warning"@,
            ButtonScheme::Error => "btn-error"@,
        }
    }

    open spec fn designated_default() -> Self {
        ButtonScheme::Default
    }

    fn all() -> (out: Vec<Self>) {
        vec![
            ButtonScheme::Default,
            ButtonScheme::Neutral,
            ButtonScheme::Primary,
            ButtonScheme::Secondary,
            ButtonScheme::Accent,
            ButtonScheme::Info,
            ButtonScheme::Success,
            ButtonScheme::Warning,
            ButtonScheme::Error,
        ]
    }

    fn resolve(&self) -> (out: &'static str) {
        match self {
            ButtonScheme::Default => "",
            ButtonScheme::Neutral => "btn-neutral",
            ButtonScheme::Primary => "btn-primary",
            ButtonScheme::Secondary => "btn-secondary",
            ButtonScheme::Accent => "btn-accent",
            ButtonScheme::Info => "btn-info",
            ButtonScheme::Success => "btn-success",
            ButtonScheme::Warning => "btn-warning",
            ButtonScheme::Error => "btn-error",
        }
    }

    proof fn lemma_members_complete(v: Self) {
        let all = Self::members();
        match v {
            ButtonScheme::Default => assert(all[0] == v),
            ButtonScheme::Neutral => assert(all[1] == v),
            ButtonScheme::Primary => assert(all[2] == v),
            ButtonScheme::Secondary => assert(all[3] == v),
            ButtonScheme::Accent => assert(all[4] == v),
            ButtonScheme::Info => assert(all[5] == v),
            ButtonScheme::Success => assert(all[6] == v),
            ButtonScheme::Warning => assert(all[7] == v),
            ButtonScheme::Error => assert(all[8] == v),
        }
    }

    proof fn lemma_fragment_tidy(v: Self) {
        reveal_strlit("");
        reveal_strlit("btn-neutral");
        reveal_strlit("btn-primary");
        reveal_strlit("btn-secondary");
        reveal_strlit("btn-accent");
        reveal_strlit("btn-info");
        reveal_strlit("btn-success");
        reveal_strlit("btn-warning");
        reveal_strlit("btn-error");
    }

    proof fn lemma_fragments_distinct(a: Self, b: Self) {
        reveal_strlit("");
        reveal_strlit("btn-neutral");
        reveal_strlit("btn-primary");
        reveal_strlit("btn-secondary");
        reveal_strlit("btn-accent");
        reveal_strlit("btn-info");
        reveal_strlit("btn-success");
        reveal_strlit("btn-warning");
        reveal_strlit("btn-error");
        // Fragments of one length differ in a letter.
        assert(""@.len() == 0);
        assert("btn-neutral"@.len() == 11 && "btn-neutral"@[4] == 'n');
        assert("btn-primary"@.len() == 11 && "btn-primary"@[4] == 'p');
        assert("btn-secondary"@.len() == 13);
        assert("btn-accent"@.len() == 10);
        assert("btn-info"@.len() == 8);
        assert("btn-success"@.len() == 11 && "btn-success"@[4] == 's');
        assert("btn-warning"@.len() == 11 && "btn-warning"@[4] == 'w');
        assert("btn-error"@.len() == 9);
    }
}

/// The size of a button.
#[derive(Clone, Copy, Debug, PartialEq, Eq, Structural)]
pub enum ButtonSize {
    Default,
    Small,
    ExtraSmall,
    Large,
    Medium,
}

impl Default for ButtonSize {
    fn default() -> (out: Self)
        ensures
            out == ButtonSize::Default,
    {
        ButtonSize::Default
    }
}

impl Variant for ButtonSize {
    open spec fn members() -> Seq<Self> {
        seq![
            ButtonSize::Default,
            ButtonSize::Small,
            ButtonSize::ExtraSmall,
            ButtonSize::Large,
            ButtonSize::Medium,
        ]
    }

    open spec fn fragment(self) -> Seq<char> {
        match self {
            ButtonSize::Default => ""@,
            ButtonSize::Small => "btn-sm"@,
            ButtonSize::ExtraSmall => "btn-xs"@,
            ButtonSize::Large => "btn-lg"@,
            ButtonSize::Medium => "btn-md"@,
        }
    }

    open spec fn designated_default() -> Self {
        ButtonSize::Default
    }

    fn all() -> (out: Vec<Self>) {
        vec![
            ButtonSize::Default,
            ButtonSize::Small,
            ButtonSize::ExtraSmall,
            ButtonSize::Large,
            ButtonSize::Medium,
        ]
    }

    fn resolve(&self) -> (out: &'static str) {
        match self {
            ButtonSize::Default => "",
            ButtonSize::Small => "btn-sm",
            ButtonSize::ExtraSmall => "btn-xs",
            ButtonSize::Large => "btn-lg",
            ButtonSize::Medium => "btn-md",
        }
    }

    proof fn lemma_members_complete(v: Self) {
        let all = Self::members();
        match v {
            ButtonSize::Default => assert(all[0] == v),
            ButtonSize::Small => assert(all[1] == v),
            ButtonSize::ExtraSmall => assert(all[2] == v),
            ButtonSize::Large => assert(all[3] == v),
            ButtonSize::Medium => assert(all[4] == v),
        }
    }

    proof fn lemma_fragment_tidy(v: Self) {
        reveal_strlit("");
        reveal_strlit("btn-sm");
        reveal_strlit("btn-xs");
        reveal_strlit("btn-lg");
        reveal_strlit("btn-md");
    }

    proof fn lemma_fragments_distinct(a: Self, b: Self) {
        reveal_strlit("");
        reveal_strlit("btn-sm");
        reveal_strlit("btn-xs");
        reveal_strlit("btn-lg");
        reveal_strlit("btn-md");
        // Fragments of one length differ in a letter.
        assert(""@.len() == 0);
        assert("btn-sm"@.len() == 6 && "btn-sm"@[4] == 's');
        assert("btn-xs"@.len() == 6 && "btn-xs"@[4] == 'x');
        assert("btn-lg"@.len() == 6 && "btn-lg"@[4] == 'l');
        assert("btn-md"@.len() == 6 && "btn-md"@[4] == 'm');
    }
}

/// The shape of a button.
#[derive(Clone, Copy, Debug, PartialEq, Eq, Structural)]
pub enum ButtonShape {
    Default,
    Circle,
    Square,
}

impl Default for ButtonShape {
    fn default() -> (out: Self)
        ensures
            out == ButtonShape::Default,
    {
        ButtonShape::Default
    }
}

impl Variant for ButtonShape {
    open spec fn members() -> Seq<Self> {
        seq![
            ButtonShape::Default,
            ButtonShape::Circle,
            ButtonShape::Square,
        ]
    }

    open spec fn fragment(self) -> Seq<char> {
        match self {
            ButtonShape::Default => ""@,
            ButtonShape::Circle => "btn-circle"@,
            ButtonShape::Square => "btn-square"@,
        }
    }

    open spec fn designated_default() -> Self {
        ButtonShape::Default
    }

    fn all() -> (out: Vec<Self>) {
        vec![
            ButtonShape::Default,
            ButtonShape::Circle,
            ButtonShape::Square,
        ]
    }

    fn resolve(&self) -> (out: &'static str) {
        match self {
            ButtonShape::Default => "",
            ButtonShape::Circle => "btn-circle",
            ButtonShape::Square => "btn-square",
        }
    }

    proof fn lemma_members_complete(v: Self) {
        let all = Self::members();
        match v {
            ButtonShape::Default => assert(all[0] == v),
            ButtonShape::Circle => assert(all[1] == v),
            ButtonShape::Square => assert(all[2] == v),
        }
    }

    proof fn lemma_fragment_tidy(v: Self) {
        reveal_strlit("");
        reveal_strlit("btn-circle");
        reveal_strlit("btn-square");
    }

    proof fn lemma_fragments_distinct(a: Self, b: Self) {
        reveal_strlit("");
        reveal_strlit("btn-circle");
        reveal_strlit("btn-square");
        // Fragments of one length differ in a letter.
        assert(""@.len() == 0);
        assert("btn-circle"@.len() == 10 && "btn-circle"@[4] == 'c');
        assert("btn-square"@.len() == 10 && "btn-square"@[4] == 's');
    }
}

/// The style of a button.
#[derive(Clone, Copy, Debug, PartialEq, Eq, Structural)]
pub enum ButtonStyle {
    Default,
    Outline,
    Dash,
    Soft,
    /// The `ghost` style.
    Ghosted,
    Link,
}

impl Default for ButtonStyle {
    fn default() -> (out: Self)
        ensures
            out == ButtonStyle::Default,
    {
        ButtonStyle::Default
    }
}

impl Variant for ButtonStyle {
    open spec fn members() -> Seq<Self> {
        seq![
            ButtonStyle::Default,
            ButtonStyle::Outline,
            ButtonStyle::Dash,
            ButtonStyle::Soft,
            ButtonStyle::Ghosted,
            ButtonStyle::Link,
        ]
    }

    open spec fn fragment(self) -> Seq<char> {
        match self {
            ButtonStyle::Default => ""@,
            ButtonStyle::Outline => "btn-outline"@,
            ButtonStyle::Dash => "btn-dash"@,
            ButtonStyle::Soft => "btn-soft"@,
            ButtonStyle::Ghosted => "btn-ghost"@,
            ButtonStyle::Link => "btn-link"@,
        }
    }

    open spec fn designated_default() -> Self {
        ButtonStyle::Default
    }

    fn all() -> (out: Vec<Self>) {
        vec![
            ButtonStyle::Default,
            ButtonStyle::Outline,
            ButtonStyle::Dash,
            ButtonStyle::Soft,
            ButtonStyle::Ghosted,
            ButtonStyle::Link,
        ]
    }

    fn resolve(&self) -> (out: &'static str) {
        match self {
            ButtonStyle::Default => "",
            ButtonStyle::Outline => "btn-outline",
            ButtonStyle::Dash => "btn-dash",
            ButtonStyle::Soft => "btn-soft",
            ButtonStyle::Ghosted => "btn-ghost",
            ButtonStyle::Link => "btn-link",
        }
    }

    proof fn lemma_members_complete(v: Self) {
        let all = Self::members();
        match v {
            ButtonStyle::Default => assert(all[0] == v),
            ButtonStyle::Outline => assert(all[1] == v),
            ButtonStyle::Dash => assert(all[2] == v),
            ButtonStyle::Soft => assert(all[3] == v),
            ButtonStyle::Ghosted => assert(all[4] == v),
            ButtonStyle::Link => assert(all[5] == v),
        }
    }

    proof fn lemma_fragment_tidy(v: Self) {
        reveal_strlit("");
        reveal_strlit("btn-outline");
        reveal_strlit("btn-dash");
        reveal_strlit("btn-soft");
        reveal_strlit("btn-ghost");
        reveal_strlit("btn-link");
    }

    proof fn lemma_fragments_distinct(a: Self, b: Self) {
        reveal_strlit("");
        reveal_strlit("btn-outline");
        reveal_strlit("btn-dash");
        reveal_strlit("btn-soft");
        reveal_strlit("btn-ghost");
        reveal_strlit("btn-link");
        // Fragments of one length differ in a letter.
        assert(""@.len() == 0);
        assert("btn-outline"@.len() == 11);
        assert("btn-dash"@.len() == 8 && "btn-dash"@[4] == 'd');
        assert("btn-soft"@.len() == 8 && "btn-soft"@[4] == 's');
        assert("btn-ghost"@.len() == 9);
        assert("btn-link"@.len() == 8 && "btn-link"@[4] == 'l');
    }
}

/// What a button is rendered from.
#[derive(Debug, PartialEq, Eq)]
pub struct ButtonProps<C> {
    pub children: C,
    pub button_scheme: ButtonScheme,
    pub button_size: ButtonSize,
    pub button_shape: ButtonShape,
    pub button_style: ButtonStyle,
    /// Passthrough attributes for the `button` element.
    pub attributes: Vec<Attribute>,
}

/// The mathematical value of [`ButtonProps`].
pub struct ButtonPropsView<C> {
    pub children: C,
    pub button_scheme: ButtonScheme,
    pub button_size: ButtonSize,
    pub button_shape: ButtonShape,
    pub button_style: ButtonStyle,
    pub attributes: Seq<AttributeView>,
}

impl<C> View for ButtonProps<C> {
    type V = ButtonPropsView<C>;

    open spec fn view(&self) -> ButtonPropsView<C> {
        ButtonPropsView {
            children: self.children,
            button_scheme: self.button_scheme,
            button_size: self.button_size,
            button_shape: self.button_shape,
            button_style: self.button_style,
            attributes: attrs_view(self.attributes@),
        }
    }
}

impl<C> ButtonProps<C> {
    /// The props with what must be given, every variant at its default and
    /// no passthrough attribute.
    pub fn new(children: C) -> (out: Self)
        ensures
            out@ == (ButtonPropsView {
                children,
                button_scheme: ButtonScheme::designated_default(),
                button_size: ButtonSize::designated_default(),
                button_shape: ButtonShape::designated_default(),
                button_style: ButtonStyle::designated_default(),
                attributes: Seq::empty(),
            }),
    {
        let out = ButtonProps {
            children,
            button_scheme: ButtonScheme::Default,
            button_size: ButtonSize::Default,
            button_shape: ButtonShape::Default,
            button_style: ButtonStyle::Default,
            attributes: Vec::new(),
        };
        assert(out@.attributes =~= Seq::empty());
        out
    }
}

/// The class string of a button: the base class, then the fragment of each
/// variant that has one.
pub open spec fn button_class<C>(props: ButtonPropsView<C>) -> Seq<char> {
    compose_spec(
        "btn"@,
        seq![
            props.button_scheme.fragment(),
            props.button_size.fragment(),
            props.button_style.fragment(),
            props.button_shape.fragment(),
        ],
    )
}

/// The class string of a button has no space at either end and none doubled,
/// whatever the variants are.
pub proof fn lemma_button_class_tidy<C>(props: ButtonPropsView<C>)
    ensures
        is_tidy(button_class(props)),
{
    reveal_strlit("btn");
    ButtonScheme::lemma_fragment_tidy(props.button_scheme);
    ButtonSize::lemma_fragment_tidy(props.button_size);
    ButtonStyle::lemma_fragment_tidy(props.button_style);
    ButtonShape::lemma_fragment_tidy(props.button_shape);
    lemma_compose_tidy(
        "btn"@,
        seq![
            props.button_scheme.fragment(),
            props.button_size.fragment(),
            props.button_style.fragment(),
            props.button_shape.fragment(),
        ],
    );
}

/// The tree of a button: a `button` whose class names the scheme, the size,
/// the style and the shape, in that order, around the content.
pub open spec fn button_tree<C>(props: ButtonPropsView<C>) -> NodeView<C> {
    ElementView::new(Tag::Button)
        .attr("class"@, button_class(props))
        .pass(props.attributes)
        .child(NodeView::Content(props.children))
        .node()
}

/// Renders a button.
pub fn Button<C>(props: ButtonProps<C>) -> (out: Node<C>)
    ensures
        out.view() == button_tree::<C>(props@),
{
    let fragments = [
        props.button_scheme.resolve(),
        props.button_size.resolve(),
        props.button_style.resolve(),
        props.button_shape.resolve(),
    ];
    assert(texts(fragments@) =~= seq![
        props.button_scheme.fragment(),
        props.button_size.fragment(),
        props.button_style.fragment(),
        props.button_shape.fragment(),
    ]);
    let class = compose("btn", &fragments);
    Element::new(Tag::Button)
        .attr("class", class.as_str())
        .pass(&props.attributes)
        .child(Node::content(props.children))
        .into_node()
}

/// Rendering is repeatable: props with the same value give the same tree.
pub proof fn lemma_button_repeatable<C>(first: ButtonProps<C>, second: ButtonProps<C>)
    requires
        first@ == second@,
    ensures
        button_tree(first@) == button_tree(second@),
{
}

} // verus!
