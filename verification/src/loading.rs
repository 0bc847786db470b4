//! Loading indicators.

use crate::attr::{attrs_view, Attribute, AttributeView};
use crate::class::{compose, compose_spec, is_tidy, lemma_compose_tidy, texts};
use crate::node::{Element, ElementView, Node, NodeView, Tag};
use crate::variant::Variant;
use vstd::prelude::*;

verus! {

/// The animation of a loading indicator.
#[derive(Clone, Copy, Debug, PartialEq, Eq, Structural)]
pub enum LoadingType {
    Spinner,
    Dots,
    Ring,
    Ball,
    Bars,
    Infinity,
}

impl Default for LoadingType {
    fn default() -> (out: Self)
        ensures
            out == LoadingType::Spinner,
    {
        LoadingType::Spinner
    }
}

impl Variant for LoadingType {
    open spec fn members() -> Seq<Self> {
        seq![
            LoadingType::Spinner,
            LoadingType::Dots,
            LoadingType::Ring,
            LoadingType::Ball,
            LoadingType::Bars,
            LoadingType::Infinity,
        ]
    }

    open spec fn fragment(self) -> Seq<char> {
        match self {
            LoadingType::Spinner => "loading-spinner"@,
            LoadingType::Dots => "loading-dots"@,
            LoadingType::Ring => "loading-ring"@,
            LoadingType::Ball => "loading-ball"@,
            LoadingType::Bars => "loading-bars"@,
            LoadingType::Infinity => "loading-infinity"@,
        }
    }

    open spec fn designated_default() -> Self {
        LoadingType::Spinner
    }

    fn all() -> (out: Vec<Self>) {
        vec![
            LoadingType::Spinner,
            LoadingType::Dots,
            LoadingType::Ring,
            LoadingType::Ball,
            LoadingType::Bars,
            LoadingType::Infinity,
        ]
    }

    fn resolve(&self) -> (out: &'static str) {
        match self {
            LoadingType::Spinner => "loading-spinner",
            LoadingType::Dots => "loading-dots",
            LoadingType::Ring => "loading-ring",
            LoadingType::Ball => "loading-ball",
            LoadingType::Bars => "loading-bars",
            LoadingType::Infinity => "loading-infinity",
        }
    }

    proof fn lemma_members_complete(v: Self) {
        let all = Self::members();
        match v {
            LoadingType::Spinner => assert(all[0] == v),
            LoadingType::Dots => assert(all[1] == v),
            LoadingType::Ring => assert(all[2] == v),
            LoadingType::Ball => assert(all[3] == v),
            LoadingType::Bars => assert(all[4] == v),
            LoadingType::Infinity => assert(all[5] == v),
        }
    }

    proof fn lemma_fragment_tidy(v: Self) {
        reveal_strlit("loading-spinner");
        reveal_strlit("loading-dots");
        reveal_strlit("loading-ring");
        reveal_strlit("loading-ball");
        reveal_strlit("loading-bars");
        reveal_strlit("loading-infinity");
    }

    proof fn lemma_fragments_distinct(a: Self, b: Self) {
        reveal_strlit("loading-spinner");
        reveal_strlit("loading-dots");
        reveal_strlit("loading-ring");
        reveal_strlit("loading-ball");
        reveal_strlit("loading-bars");
        reveal_strlit("loading-infinity");
        // Fragments of one length differ in a letter.
        assert("loading-spinner"@.len() == 15);
        assert("loading-dots"@.len() == 12 && "loading-dots"@[10] == 't');
        assert("loading-ring"@.len() == 12 && "loading-ring"@[10] == 'n');
        assert("loading-ball"@.len() == 12 && "loading-ball"@[10] == 'l');
        assert("loading-bars"@.len() == 12 && "loading-bars"@[10] == 'r');
        assert("loading-infinity"@.len() == 16);
    }
}

/// The size of a loading indicator.
#[derive(Clone, Copy, Debug, PartialEq, Eq, Structural)]
pub enum LoadingSize {
    ExtraSmall,
    Small,
    Medium,
    Large,
    ExtraLarge,
}

impl Default for LoadingSize {
    fn default() -> (out: Self)
        ensures
            out == LoadingSize::Medium,
    {
        LoadingSize::Medium
    }
}

impl Variant for LoadingSize {
    open spec fn members() -> Seq<Self> {
        seq![
            LoadingSize::ExtraSmall,
            LoadingSize::Small,
            LoadingSize::Medium,
            LoadingSize::Large,
            LoadingSize::ExtraLarge,
        ]
    }

    open spec fn fragment(self) -> Seq<char> {
        match self {
            LoadingSize::ExtraSmall => "loading-xs"@,
            LoadingSize::Small => "loading-sm"@,
            LoadingSize::Medium => "loading-md"@,
            LoadingSize::Large => "loading-lg"@,
            LoadingSize::ExtraLarge => "loading-xl"@,
        }
    }

    open spec fn designated_default() -> Self {
        LoadingSize::Medium
    }

    fn all() -> (out: Vec<Self>) {
        vec![
            LoadingSize::ExtraSmall,
            LoadingSize::Small,
            LoadingSize::Medium,
            LoadingSize::Large,
            LoadingSize::ExtraLarge,
        ]
    }

    fn resolve(&self) -> (out: &'static str) {
        match self {
            LoadingSize::ExtraSmall => "loading-xs",
            LoadingSize::Small => "loading-sm",
            LoadingSize::Medium => "loading-md",
            LoadingSize::Large => "loading-lg",
            LoadingSize::ExtraLarge => "loading-xl",
        }
    }

    proof fn lemma_members_complete(v: Self) {
        let all = Self::members();
        match v {
            LoadingSize::ExtraSmall => assert(all[0] == v),
            LoadingSize::Small => assert(all[1] == v),
            LoadingSize::Medium => assert(all[2] == v),
            LoadingSize::Large => assert(all[3] == v),
            LoadingSize::ExtraLarge => assert(all[4] == v),
        }
    }

    proof fn lemma_fragment_tidy(v: Self) {
        reveal_strlit("loading-xs");
        reveal_strlit("loading-sm");
        reveal_strlit("loading-md");
        reveal_strlit("loading-lg");
        reveal_strlit("loading-xl");
    }

    proof fn lemma_fragments_distinct(a: Self, b: Self) {
        reveal_strlit("loading-xs");
        reveal_strlit("loading-sm");
        reveal_strlit("loading-md");
        reveal_strlit("loading-lg");
        reveal_strlit("loading-xl");
        // Fragments of one length differ in a letter.
        assert("loading-xs"@.len() == 10 && "loading-xs"@[9] == 's');
        assert("loading-sm"@.len() == 10 && "loading-sm"@[9] == 'm');
        assert("loading-md"@.len() == 10 && "loading-md"@[9] == 'd');
        assert("loading-lg"@.len() == 10 && "loading-lg"@[9] == 'g');
        assert("loading-xl"@.len() == 10 && "loading-xl"@[9] == 'l');
    }
}

/// The colour of a loading indicator.
#[derive(Clone, Copy, Debug, PartialEq, Eq, Structural)]
pub enum LoadingColor {
    Default,
    Primary,
    Secondary,
    Accent,
    Neutral,
    Info,
    Success,
    Warning,
    Error,
}

impl Default for LoadingColor {
    fn default() -> (out: Self)
        ensures
            out == LoadingColor::Default,
    {
        LoadingColor::Default
    }
}

impl Variant for LoadingColor {
    open spec fn members() -> Seq<Self> {
        seq![
            LoadingColor::Default,
            LoadingColor::Primary,
            LoadingColor::Secondary,
            LoadingColor::Accent,
            LoadingColor::Neutral,
            LoadingColor::Info,
            LoadingColor::Success,
            LoadingColor::Warning,
            LoadingColor::Error,
        ]
    }

    open spec fn fragment(self) -> Seq<char> {
        match self {
            LoadingColor::Default => ""@,
            LoadingColor::Primary => "text-primary"@,
            LoadingColor::Secondary => "text-secondary"@,
            LoadingColor::Accent => "text-accent"@,
            LoadingColor::Neutral => "text-neutral"@,
            LoadingColor::Info => "text-info"@,
            LoadingColor::Success => "text-success"@,
            LoadingColor::Warning => "text-warning"@,
            LoadingColor::Error => "text-error"@,
        }
    }

    open spec fn designated_default() -> Self {
        LoadingColor::Default
    }

    fn all() -> (out: Vec<Self>) {
        vec![
            LoadingColor::Default,
            LoadingColor::Primary,
            LoadingColor::Secondary,
            LoadingColor::Accent,
            LoadingColor::Neutral,
            LoadingColor::Info,
            LoadingColor::Success,
            LoadingColor::Warning,
            LoadingColor::Error,
        ]
    }

    fn resolve(&self) -> (out: &'static str) {
        match self {
            LoadingColor::Default => "",
            LoadingColor::Primary => "text-primary",
            LoadingColor::Secondary => "text-secondary",
            LoadingColor::Accent => "text-accent",
            LoadingColor::Neutral => "text-neutral",
            LoadingColor::Info => "text-info",
            LoadingColor::Success => "text-success",
            LoadingColor::Warning => "text-warning",
            LoadingColor::Error => "text-error",
        }
    }

    proof fn lemma_members_complete(v: Self) {
        let all = Self::members();
        match v {
            LoadingColor::Default => assert(all[0] == v),
            LoadingColor::Primary => assert(all[1] == v),
            LoadingColor::Secondary => assert(all[2] == v),
            LoadingColor::Accent => assert(all[3] == v),
            LoadingColor::Neutral => assert(all[4] == v),
            LoadingColor::Info => assert(all[5] == v),
            LoadingColor::Success => assert(all[6] == v),
            LoadingColor::Warning => assert(all[7] == v),
            LoadingColor::Error => assert(all[8] == v),
        }
    }

    proof fn lemma_fragment_tidy(v: Self) {
        reveal_strlit("");
        reveal_strlit("text-primary");
        reveal_strlit("text-secondary");
        reveal_strlit("text-accent");
        reveal_strlit("text-neutral");
        reveal_strlit("text-info");
        reveal_strlit("text-success");
        reveal_strlit("text-warning");
        reveal_strlit("text-error");
    }

    proof fn lemma_fragments_distinct(a: Self, b: Self) {
        reveal_strlit("");
        reveal_strlit("text-primary");
        reveal_strlit("text-secondary");
        reveal_strlit("text-accent");
        reveal_strlit("text-neutral");
        reveal_strlit("text-info");
        reveal_strlit("text-success");
        reveal_strlit("text-warning");
        reveal_strlit("text-error");
        // Fragments of one length differ in a letter.
        assert(""@.len() == 0);
        assert("text-primary"@.len() == 12 && "text-primary"@[5] == 'p');
        assert("text-secondary"@.len() == 14);
        assert("text-accent"@.len() == 11);
        assert("text-neutral"@.len() == 12 && "text-neutral"@[5] == 'n');
        assert("text-info"@.len() == 9);
        assert("text-success"@.len() == 12 && "text-success"@[5] == 's');
        assert("text-warning"@.len() == 12 && "text-warning"@[5] == 'w');
        assert("text-error"@.len() == 10);
    }
}

/// What a loading indicator is rendered from.
#[derive(Debug, PartialEq, Eq)]
pub struct LoadingProps {
    pub loading_type: LoadingType,
    pub loading_size: LoadingSize,
    pub loading_color: LoadingColor,
    /// Passthrough attributes for the `span` element.
    pub attributes: Vec<Attribute>,
}

/// The mathematical value of [`LoadingProps`].
pub struct LoadingPropsView {
    pub loading_type: LoadingType,
    pub loading_size: LoadingSize,
    pub loading_color: LoadingColor,
    pub attributes: Seq<AttributeView>,
}

impl View for LoadingProps {
    type V = LoadingPropsView;

    open spec fn view(&self) -> LoadingPropsView {
        LoadingPropsView {
            loading_type: self.loading_type,
            loading_size: self.loading_size,
            loading_color: self.loading_color,
            attributes: attrs_view(self.attributes@),
        }
    }
}

impl LoadingProps {
    /// The props with what must be given, every variant at its default and
    /// no passthrough attribute.
    pub fn new() -> (out: Self)
        ensures
            out@ == (LoadingPropsView {
                loading_type: LoadingType::designated_default(),
                loading_size: LoadingSize::designated_default(),
                loading_color: LoadingColor::designated_default(),
                attributes: Seq::empty(),
            }),
    {
        let out = LoadingProps {
            loading_type: LoadingType::Spinner,
            loading_size: LoadingSize::Medium,
            loading_color: LoadingColor::Default,
            attributes: Vec::new(),
        };
        assert(out@.attributes =~= Seq::empty());
        out
    }
}

/// The class string of a loading indicator: the base class, then the fragment of each
/// variant that has one.
pub open spec fn loading_class(props: LoadingPropsView) -> Seq<char> {
    compose_spec(
        "loading"@,
        seq![
            props.loading_type.fragment(),
            props.loading_size.fragment(),
            props.loading_color.fragment(),
        ],
    )
}

/// The class string of a loading indicator has no space at either end and none doubled,
/// whatever the variants are.
pub proof fn lemma_loading_class_tidy(props: LoadingPropsView)
    ensures
        is_tidy(loading_class(props)),
{
    reveal_strlit("loading");
    LoadingType::lemma_fragment_tidy(props.loading_type);
    LoadingSize::lemma_fragment_tidy(props.loading_size);
    LoadingColor::lemma_fragment_tidy(props.loading_color);
    lemma_compose_tidy(
        "loading"@,
        seq![
            props.loading_type.fragment(),
            props.loading_size.fragment(),
            props.loading_color.fragment(),
        ],
    );
}

/// The tree of a loading indicator: an empty `span` with the loading classes.
pub open spec fn loading_tree<C>(props: LoadingPropsView) -> NodeView<C> {
    ElementView::new(Tag::Span)
        .attr("class"@, loading_class(props))
        .pass(props.attributes)
        .node()
}

/// Renders a loading indicator.
pub fn Loading<C>(props: LoadingProps) -> (out: Node<C>)
    ensures
        out.view() == loading_tree::<C>(props@),
{
    let fragments = [
        props.loading_type.resolve(),
        props.loading_size.resolve(),
        props.loading_color.resolve(),
    ];
    assert(texts(fragments@) =~= seq![
        props.loading_type.fragment(),
        props.loading_size.fragment(),
        props.loading_color.fragment(),
    ]);
    let class = compose("loading", &fragments);
    Element::new(Tag::Span)
        .attr("class", class.as_str())
        .pass(&props.attributes)
        .into_node()
}

/// Rendering is repeatable: props with the same value give the same tree.
pub proof fn lemma_loading_repeatable<C>(first: LoadingProps, second: LoadingProps)
    requires
        first@ == second@,
    ensures
        loading_tree::<C>(first@) == loading_tree::<C>(second@),
{
}

} // verus!
