//! Badges.

use crate::attr::{attrs_view, Attribute, AttributeView};
use crate::class::{compose, compose_spec, is_tidy, lemma_compose_tidy, texts};
use crate::node::{Element, ElementView, Node, NodeView, Tag};
use crate::variant::Variant;
use vstd::prelude::*;

verus! {

/// The style of a badge.
#[derive(Clone, Copy, Debug, PartialEq, Eq, Structural)]
pub enum BadgeStyle {
    /// No style of its own.
    Plain,
    Outline,
    Dash,
    Soft,
    /// The `ghost` style.
    Ghosted,
}

impl Default for BadgeStyle {
    fn default() -> (out: Self)
        ensures
            out == BadgeStyle::Plain,
    {
        BadgeStyle::Plain
    }
}

impl Variant for BadgeStyle {
    open spec fn members() -> Seq<Self> {
        seq![
            BadgeStyle::Plain,
            BadgeStyle::Outline,
            BadgeStyle::Dash,
            BadgeStyle::Soft,
            BadgeStyle::Ghosted,
        ]
    }

    open spec fn fragment(self) -> Seq<char> {
        match self {
            BadgeStyle::Plain => ""@,
            BadgeStyle::Outline => "badge-outline"@,
            BadgeStyle::Dash => "badge-dash"@,
            BadgeStyle::Soft => "badge-soft"@,
            BadgeStyle::Ghosted => "badge-ghost"@,
        }
    }

    open spec fn designated_default() -> Self {
        BadgeStyle::Plain
    }

    fn all() -> (out: Vec<Self>) {
        vec![
            BadgeStyle::Plain,
            BadgeStyle::Outline,
            BadgeStyle::Dash,
            BadgeStyle::Soft,
            BadgeStyle::Ghosted,
        ]
    }

    fn resolve(&self) -> (out: &'static str) {
        match self {
            BadgeStyle::Plain => "",
            BadgeStyle::Outline => "badge-outline",
            BadgeStyle::Dash => "badge-dash",
            BadgeStyle::Soft => "badge-soft",
            BadgeStyle::Ghosted => "badge-ghost",
        }
    }

    proof fn lemma_members_complete(v: Self) {
        let all = Self::members();
        match v {
            BadgeStyle::Plain => assert(all[0] == v),
            BadgeStyle::Outline => assert(all[1] == v),
            BadgeStyle::Dash => assert(all[2] == v),
            BadgeStyle::Soft => assert(all[3] == v),
            BadgeStyle::Ghosted => assert(all[4] == v),
        }
    }

    proof fn lemma_fragment_tidy(v: Self) {
        reveal_strlit("");
        reveal_strlit("badge-outline");
        reveal_strlit("badge-dash");
        reveal_strlit("badge-soft");
        reveal_strlit("badge-ghost");
    }

    proof fn lemma_fragments_distinct(a: Self, b: Self) {
        reveal_strlit("");
        reveal_strlit("badge-outline");
        reveal_strlit("badge-dash");
        reveal_strlit("badge-soft");
        reveal_strlit("badge-ghost");
        // Fragments of one length differ in a letter.
        assert(""@.len() == 0);
        assert("badge-outline"@.len() == 13);
        assert("badge-dash"@.len() == 10 && "badge-dash"@[6] == 'd');
        assert("badge-soft"@.len() == 10 && "badge-soft"@[6] == 's');
        assert("badge-ghost"@.len() == 11);
    }
}

/// The colour of a badge.
#[derive(Clone, Copy, Debug, PartialEq, Eq, Structural)]
pub enum BadgeColor {
    Default,
    Neutral,
    Primary,
    Secondary,
    Accent,
    Info,
    Success,
    Warning,
    Error,
}

impl Default for BadgeColor {
    fn default() -> (out: Self)
        ensures
            out == BadgeColor::Default,
    {
        BadgeColor::Default
    }
}

impl Variant for BadgeColor {
    open spec fn members() -> Seq<Self> {
        seq![
            BadgeColor::Default,
            BadgeColor::Neutral,
            BadgeColor::Primary,
            BadgeColor::Secondary,
            BadgeColor::Accent,
            BadgeColor::Info,
            BadgeColor::Success,
            BadgeColor::Warning,
            BadgeColor::Error,
        ]
    }

    open spec fn fragment(self) -> Seq<char> {
        match self {
            BadgeColor::Default => ""@,
            BadgeColor::Neutral => "badge-neutral"@,
            BadgeColor::Primary => "badge-primary"@,
            BadgeColor::Secondary => "badge-secondary"@,
            BadgeColor::Accent => "badge-accent"@,
            BadgeColor::Info => "badge-info"@,
            BadgeColor::Success => "badge-success"@,
            BadgeColor::Warning => "badge-warning"@,
            BadgeColor::Error => "badge-error"@,
        }
    }

    open spec fn designated_default() -> Self {
        BadgeColor::Default
    }

    fn all() -> (out: Vec<Self>) {
        vec![
            BadgeColor::Default,
            BadgeColor::Neutral,
            BadgeColor::Primary,
            BadgeColor::Secondary,
            BadgeColor::Accent,
            BadgeColor::Info,
            BadgeColor::Success,
            BadgeColor::Warning,
            BadgeColor::Error,
        ]
    }

    fn resolve(&self) -> (out: &'static str) {
        match self {
            BadgeColor::Default => "",
            BadgeColor::Neutral => "badge-neutral",
            BadgeColor::Primary => "badge-primary",
            BadgeColor::Secondary => "badge-secondary",
            BadgeColor::Accent => "badge-accent",
            BadgeColor::Info => "badge-info",
            BadgeColor::Success => "badge-success",
            BadgeColor::Warning => "badge-warning",
            BadgeColor::Error => "badge-error",
        }
    }

    proof fn lemma_members_complete(v: Self) {
        let all = Self::members();
        match v {
            BadgeColor::Default => assert(all[0] == v),
            BadgeColor::Neutral => assert(all[1] == v),
            BadgeColor::Primary => assert(all[2] == v),
            BadgeColor::Secondary => assert(all[3] == v),
            BadgeColor::Accent => assert(all[4] == v),
            BadgeColor::Info => assert(all[5] == v),
            BadgeColor::Success => assert(all[6] == v),
            BadgeColor::Warning => assert(all[7] == v),
            BadgeColor::Error => assert(all[8] == v),
        }
    }

    proof fn lemma_fragment_tidy(v: Self) {
        reveal_strlit("");
        reveal_strlit("badge-neutral");
        reveal_strlit("badge-primary");
        reveal_strlit("badge-secondary");
        reveal_strlit("badge-accent");
        reveal_strlit("badge-info");
        reveal_strlit("badge-success");
        reveal_strlit("badge-warning");
        reveal_strlit("badge-error");
    }

    proof fn lemma_fragments_distinct(a: Self, b: Self) {
        reveal_strlit("");
        reveal_strlit("badge-neutral");
        reveal_strlit("badge-primary");
        reveal_strlit("badge-secondary");
        reveal_strlit("badge-accent");
        reveal_strlit("badge-info");
        reveal_strlit("badge-success");
        reveal_strlit("badge-warning");
        reveal_strlit("badge-error");
        // Fragments of one length differ in a letter.
        assert(""@.len() == 0);
        assert("badge-neutral"@.len() == 13 && "badge-neutral"@[6] == 'n');
        assert("badge-primary"@.len() == 13 && "badge-primary"@[6] == 'p');
        assert("badge-secondary"@.len() == 15);
        assert("badge-accent"@.len() == 12);
        assert("badge-info"@.len() == 10);
        assert("badge-success"@.len() == 13 && "badge-success"@[6] == 's');
        assert("badge-warning"@.len() == 13 && "badge-warning"@[6] == 'w');
        assert("badge-error"@.len() == 11);
    }
}

/// The size of a badge. The medium size is the base class's own, so it adds no class.
#[derive(Clone, Copy, Debug, PartialEq, Eq, Structural)]
pub enum BadgeSize {
    Md,
    Xs,
    Sm,
    Lg,
    Xl,
}

impl Default for BadgeSize {
    fn default() -> (out: Self)
        ensures
            out == BadgeSize::Md,
    {
        BadgeSize::Md
    }
}

impl Variant for BadgeSize {
    open spec fn members() -> Seq<Self> {
        seq![
            BadgeSize::Md,
            BadgeSize::Xs,
            BadgeSize::Sm,
            BadgeSize::Lg,
            BadgeSize::Xl,
        ]
    }

    open spec fn fragment(self) -> Seq<char> {
        match self {
            BadgeSize::Md => ""@,
            BadgeSize::Xs => "badge-xs"@,
            BadgeSize::Sm => "badge-sm"@,
            BadgeSize::Lg => "badge-lg"@,
            BadgeSize::Xl => "badge-xl"@,
        }
    }

    open spec fn designated_default() -> Self {
        BadgeSize::Md
    }

    fn all() -> (out: Vec<Self>) {
        vec![
            BadgeSize::Md,
            BadgeSize::Xs,
            BadgeSize::Sm,
            BadgeSize::Lg,
            BadgeSize::Xl,
        ]
    }

    fn resolve(&self) -> (out: &'static str) {
        match self {
            BadgeSize::Md => "",
            BadgeSize::Xs => "badge-xs",
            BadgeSize::Sm => "badge-sm",
            BadgeSize::Lg => "badge-lg",
            BadgeSize::Xl => "badge-xl",
        }
    }

    proof fn lemma_members_complete(v: Self) {
        let all = Self::members();
        match v {
            BadgeSize::Md => assert(all[0] == v),
            BadgeSize::Xs => assert(all[1] == v),
            BadgeSize::Sm => assert(all[2] == v),
            BadgeSize::Lg => assert(all[3] == v),
            BadgeSize::Xl => assert(all[4] == v),
        }
    }

    proof fn lemma_fragment_tidy(v: Self) {
        reveal_strlit("");
        reveal_strlit("badge-xs");
        reveal_strlit("badge-sm");
        reveal_strlit("badge-lg");
        reveal_strlit("badge-xl");
    }

    proof fn lemma_fragments_distinct(a: Self, b: Self) {
        reveal_strlit("");
        reveal_strlit("badge-xs");
        reveal_strlit("badge-sm");
        reveal_strlit("badge-lg");
        reveal_strlit("badge-xl");
        // Fragments of one length differ in a letter.
        assert(""@.len() == 0);
        assert("badge-xs"@.len() == 8 && "badge-xs"@[7] == 's');
        assert("badge-sm"@.len() == 8 && "badge-sm"@[7] == 'm');
        assert("badge-lg"@.len() == 8 && "badge-lg"@[7] == 'g');
        assert("badge-xl"@.len() == 8 && "badge-xl"@[7] == 'l');
    }
}

/// What a badge is rendered from.
#[derive(Debug, PartialEq, Eq)]
pub struct BadgeProps<C> {
    pub children: C,
    pub badge_style: BadgeStyle,
    pub badge_color: BadgeColor,
    pub badge_size: BadgeSize,
    /// Passthrough attributes for the `span` element.
    pub attributes: Vec<Attribute>,
}

/// The mathematical value of [`BadgeProps`].
pub struct BadgePropsView<C> {
    pub children: C,
    pub badge_style: BadgeStyle,
    pub badge_color: BadgeColor,
    pub badge_size: BadgeSize,
    pub attributes: Seq<AttributeView>,
}

impl<C> View for BadgeProps<C> {
    type V = BadgePropsView<C>;

    open spec fn view(&self) -> BadgePropsView<C> {
        BadgePropsView {
            children: self.children,
            badge_style: self.badge_style,
            badge_color: self.badge_color,
            badge_size: self.badge_size,
            attributes: attrs_view(self.attributes@),
        }
    }
}

impl<C> BadgeProps<C> {
    /// The props with what must be given, every variant at its default and
    /// no passthrough attribute.
    pub fn new(children: C) -> (out: Self)
        ensures
            out@ == (BadgePropsView {
                children,
                badge_style: BadgeStyle::designated_default(),
                badge_color: BadgeColor::designated_default(),
                badge_size: BadgeSize::designated_default(),
                attributes: Seq::empty(),
            }),
    {
        let out = BadgeProps {
            children,
            badge_style: BadgeStyle::Plain,
            badge_color: BadgeColor::Default,
            badge_size: BadgeSize::Md,
            attributes: Vec::new(),
        };
        assert(out@.attributes =~= Seq::empty());
        out
    }
}

/// The class string of a badge: the base class, then the fragment of each
/// variant that has one.
pub open spec fn badge_class<C>(props: BadgePropsView<C>) -> Seq<char> {
    compose_spec(
        "badge"@,
        seq![
            props.badge_style.fragment(),
            props.badge_color.fragment(),
            props.badge_size.fragment(),
        ],
    )
}

/// The class string of a badge has no space at either end and none doubled,
/// whatever the variants are.
pub proof fn lemma_badge_class_tidy<C>(props: BadgePropsView<C>)
    ensures
        is_tidy(badge_class(props)),
{
    reveal_strlit("badge");
    BadgeStyle::lemma_fragment_tidy(props.badge_style);
    BadgeColor::lemma_fragment_tidy(props.badge_color);
    BadgeSize::lemma_fragment_tidy(props.badge_size);
    lemma_compose_tidy(
        "badge"@,
        seq![
            props.badge_style.fragment(),
            props.badge_color.fragment(),
            props.badge_size.fragment(),
        ],
    );
}

/// The tree of a badge: a `span` with the badge classes and the content.
pub open spec fn badge_tree<C>(props: BadgePropsView<C>) -> NodeView<C> {
    ElementView::new(Tag::Span)
        .attr("class"@, badge_class(props))
        .pass(props.attributes)
        .child(NodeView::Content(props.children))
        .node()
}

/// Renders a badge.
pub fn Badge<C>(props: BadgeProps<C>) -> (out: Node<C>)
    ensures
        out.view() == badge_tree::<C>(props@),
{
    let fragments = [
        props.badge_style.resolve(),
        props.badge_color.resolve(),
        props.badge_size.resolve(),
    ];
    assert(texts(fragments@) =~= seq![
        props.badge_style.fragment(),
        props.badge_color.fragment(),
        props.badge_size.fragment(),
    ]);
    let class = compose("badge", &fragments);
    Element::new(Tag::Span)
        .attr("class", class.as_str())
        .pass(&props.attributes)
        .child(Node::content(props.children))
        .into_node()
}

/// Rendering is repeatable: props with the same value give the same tree.
pub proof fn lemma_badge_repeatable<C>(first: BadgeProps<C>, second: BadgeProps<C>)
    requires
        first@ == second@,
    ensures
        badge_tree(first@) == badge_tree(second@),
{
}

} // verus!
