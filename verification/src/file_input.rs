//! Labelled file inputs.

use crate::attr::{attrs_view, Attribute, AttributeView};
use crate::class::{compose, compose_spec, is_tidy, lemma_compose_tidy, texts};
use crate::node::{Element, ElementView, Node, NodeView, Tag};
use crate::variant::Variant;
use vstd::prelude::*;

verus! {

/// The style of a file input.
#[derive(Clone, Copy, Debug, PartialEq, Eq, Structural)]
pub enum FileInputStyle {
    Default,
    /// The `ghost` style.
    Ghosted,
}

impl Default for FileInputStyle {
    fn default() -> (out: Self)
        ensures
            out == FileInputStyle::Default,
    {
        FileInputStyle::Default
    }
}

impl Variant for FileInputStyle {
    open spec fn members() -> Seq<Self> {
        seq![
            FileInputStyle::Default,
            FileInputStyle::Ghosted,
        ]
    }

    open spec fn fragment(self) -> Seq<char> {
        match self {
            FileInputStyle::Default => ""@,
            FileInputStyle::Ghosted => "file-input-ghost"@,
        }
    }

    open spec fn designated_default() -> Self {
        FileInputStyle::Default
    }

    fn all() -> (out: Vec<Self>) {
        vec![
            FileInputStyle::Default,
            FileInputStyle::Ghosted,
        ]
    }

    fn resolve(&self) -> (out: &'static str) {
        match self {
            FileInputStyle::Default => "",
            FileInputStyle::Ghosted => "file-input-ghost",
        }
    }

    proof fn lemma_members_complete(v: Self) {
        let all = Self::members();
        match v {
            FileInputStyle::Default => assert(all[0] == v),
            FileInputStyle::Ghosted => assert(all[1] == v),
        }
    }

    proof fn lemma_fragment_tidy(v: Self) {
        reveal_strlit("");
        reveal_strlit("file-input-ghost");
    }

    proof fn lemma_fragments_distinct(a: Self, b: Self) {
        reveal_strlit("");
        reveal_strlit("file-input-ghost");
        assert(""@.len() == 0);
        assert("file-input-ghost"@.len() == 16);
    }
}

/// The colour of a file input.
#[derive(Clone, Copy, Debug, PartialEq, Eq, Structural)]
pub enum FileInputColor {
    Default,
    Neutral,
    Primary,
    Secondary,
    Accent,
    Info,
    Success,
    Warning,
    Error,
}

impl Default for FileInputColor {
    fn default() -> (out: Self)
        ensures
            out == FileInputColor::Default,
    {
        FileInputColor::Default
    }
}

impl Variant for FileInputColor {
    open spec fn members() -> Seq<Self> {
        seq![
            FileInputColor::Default,
            FileInputColor::Neutral,
            FileInputColor::Primary,
            FileInputColor::Secondary,
            FileInputColor::Accent,
            FileInputColor::Info,
            FileInputColor::Success,
            FileInputColor::Warning,
            FileInputColor::Error,
        ]
    }

    open spec fn fragment(self) -> Seq<char> {
        match self {
            FileInputColor::Default => ""@,
            FileInputColor::Neutral => "file-input-neutral"@,
            FileInputColor::Primary => "file-input-primary"@,
            FileInputColor::Secondary => "file-input-secondary"@,
            FileInputColor::Accent => "file-input-accent"@,
            FileInputColor::Info => "file-input-info"@,
            FileInputColor::Success => "file-input-success"@,
            FileInputColor::Warning => "file-input-warning"@,
            FileInputColor::Error => "file-input-error"@,
        }
    }

    open spec fn designated_default() -> Self {
        FileInputColor::Default
    }

    fn all() -> (out: Vec<Self>) {
        vec![
            FileInputColor::Default,
            FileInputColor::Neutral,
            FileInputColor::Primary,
            FileInputColor::Secondary,
            FileInputColor::Accent,
            FileInputColor::Info,
            FileInputColor::Success,
            FileInputColor::Warning,
            FileInputColor::Error,
        ]
    }

    fn resolve(&self) -> (out: &'static str) {
        match self {
            FileInputColor::Default => "",
            FileInputColor::Neutral => "file-input-neutral",
            FileInputColor::Primary => "file-input-primary",
            FileInputColor::Secondary => "file-input-secondary",
            FileInputColor::Accent => "file-input-accent",
            FileInputColor::Info => "file-input-info",
            FileInputColor::Success => "file-input-success",
            FileInputColor::Warning => "file-input-warning",
            FileInputColor::Error => "file-input-error",
        }
    }

    proof fn lemma_members_complete(v: Self) {
        let all = Self::members();
        match v {
            FileInputColor::Default => assert(all[0] == v),
            FileInputColor::Neutral => assert(all[1] == v),
            FileInputColor::Primary => assert(all[2] == v),
            FileInputColor::Secondary => assert(all[3] == v),
            FileInputColor::Accent => assert(all[4] == v),
            FileInputColor::Info => assert(all[5] == v),
            FileInputColor::Success => assert(all[6] == v),
            FileInputColor::Warning => assert(all[7] == v),
            FileInputColor::Error => assert(all[8] == v),
        }
    }

    proof fn lemma_fragment_tidy(v: Self) {
        reveal_strlit("");
        reveal_strlit("file-input-neutral");
        reveal_strlit("file-input-primary");
        reveal_strlit("file-input-secondary");
        reveal_strlit("file-input-accent");
        reveal_strlit("file-input-info");
        reveal_strlit("file-input-success");
        reveal_strlit("file-input-warning");
        reveal_strlit("file-input-error");
    }

    proof fn lemma_fragments_distinct(a: Self, b: Self) {
        reveal_strlit("");
        reveal_strlit("file-input-neutral");
        reveal_strlit("file-input-primary");
        reveal_strlit("file-input-secondary");
        reveal_strlit("file-input-accent");
        reveal_strlit("file-input-info");
        reveal_strlit("file-input-success");
        reveal_strlit("file-input-warning");
        reveal_strlit("file-input-error");
        // Fragments of one length differ in a letter.
        assert(""@.len() == 0);
        assert("file-input-neutral"@.len() == 18 && "file-input-neutral"@[11] == 'n');
        assert("file-input-primary"@.len() == 18 && "file-input-primary"@[11] == 'p');
        assert("file-input-secondary"@.len() == 20);
        assert("file-input-accent"@.len() == 17);
        assert("file-input-info"@.len() == 15);
        assert("file-input-success"@.len() == 18 && "file-input-success"@[11] == 's');
        assert("file-input-warning"@.len() == 18 && "file-input-warning"@[11] == 'w');
        assert("file-input-error"@.len() == 16);
    }
}

/// The size of a file input.
#[derive(Clone, Copy, Debug, PartialEq, Eq, Structural)]
pub enum FileInputSize {
    Default,
    ExtraSmall,
    Small,
    Medium,
    Large,
}

impl Default for FileInputSize {
    fn default() -> (out: Self)
        ensures
            out == FileInputSize::Default,
    {
        FileInputSize::Default
    }
}

impl Variant for FileInputSize {
    open spec fn members() -> Seq<Self> {
        seq![
            FileInputSize::Default,
            FileInputSize::ExtraSmall,
            FileInputSize::Small,
            FileInputSize::Medium,
            FileInputSize::Large,
        ]
    }

    open spec fn fragment(self) -> Seq<char> {
        match self {
            FileInputSize::Default => ""@,
            FileInputSize::ExtraSmall => "file-input-xs"@,
            FileInputSize::Small => "file-input-sm"@,
            FileInputSize::Medium => "file-input-md"@,
            FileInputSize::Large => "file-input-lg"@,
        }
    }

    open spec fn designated_default() -> Self {
        FileInputSize::Default
    }

    fn all() -> (out: Vec<Self>) {
        vec![
            FileInputSize::Default,
            FileInputSize::ExtraSmall,
            FileInputSize::Small,
            FileInputSize::Medium,
            FileInputSize::Large,
        ]
    }

    fn resolve(&self) -> (out: &'static str) {
        match self {
            FileInputSize::Default => "",
            FileInputSize::ExtraSmall => "file-input-xs",
            FileInputSize::Small => "file-input-sm",
            FileInputSize::Medium => "file-input-md",
            FileInputSize::Large => "file-input-lg",
        }
    }

    proof fn lemma_members_complete(v: Self) {
        let all = Self::members();
        match v {
            FileInputSize::Default => assert(all[0] == v),
            FileInputSize::ExtraSmall => assert(all[1] == v),
            FileInputSize::Small => assert(all[2] == v),
            FileInputSize::Medium => assert(all[3] == v),
            FileInputSize::Large => assert(all[4] == v),
        }
    }

    proof fn lemma_fragment_tidy(v: Self) {
        reveal_strlit("");
        reveal_strlit("file-input-xs");
        reveal_strlit("file-input-sm");
        reveal_strlit("file-input-md");
        reveal_strlit("file-input-lg");
    }

    proof fn lemma_fragments_distinct(a: Self, b: Self) {
        reveal_strlit("");
        reveal_strlit("file-input-xs");
        reveal_strlit("file-input-sm");
        reveal_strlit("file-input-md");
        reveal_strlit("file-input-lg");
        // Fragments of one length differ in a letter.
        assert(""@.len() == 0);
        assert("file-input-xs"@.len() == 13 && "file-input-xs"@[11] == 'x');
        assert("file-input-sm"@.len() == 13 && "file-input-sm"@[11] == 's');
        assert("file-input-md"@.len() == 13 && "file-input-md"@[11] == 'm');
        assert("file-input-lg"@.len() == 13 && "file-input-lg"@[11] == 'l');
    }
}

/// What a labelled file input is rendered from.
#[derive(Debug, PartialEq, Eq)]
pub struct FileInputProps {
    /// The text above the file input.
    pub label: String,
    pub file_input_style: FileInputStyle,
    pub file_input_color: FileInputColor,
    pub file_input_size: FileInputSize,
    /// Passthrough attributes for the `input` element.
    pub attributes: Vec<Attribute>,
}

/// The mathematical value of [`FileInputProps`].
pub struct FileInputPropsView {
    pub label: Seq<char>,
    pub file_input_style: FileInputStyle,
    pub file_input_color: FileInputColor,
    pub file_input_size: FileInputSize,
    pub attributes: Seq<AttributeView>,
}

impl View for FileInputProps {
    type V = FileInputPropsView;

    open spec fn view(&self) -> FileInputPropsView {
        FileInputPropsView {
            label: self.label@,
            file_input_style: self.file_input_style,
            file_input_color: self.file_input_color,
            file_input_size: self.file_input_size,
            attributes: attrs_view(self.attributes@),
        }
    }
}

impl FileInputProps {
    /// The props with what must be given, every variant at its default and
    /// no passthrough attribute.
    pub fn new(label: &str) -> (out: Self)
        ensures
            out@ == (FileInputPropsView {
                label: label@,
                file_input_style: FileInputStyle::designated_default(),
                file_input_color: FileInputColor::designated_default(),
                file_input_size: FileInputSize::designated_default(),
                attributes: Seq::empty(),
            }),
    {
        let out = FileInputProps {
            label: String::from_str(label),
            file_input_style: FileInputStyle::Default,
            file_input_color: FileInputColor::Default,
            file_input_size: FileInputSize::Default,
            attributes: Vec::new(),
        };
        assert(out@.attributes =~= Seq::empty());
        out
    }
}

/// The class string of a labelled file input: the base class, then the fragment of each
/// variant that has one.
pub open spec fn file_input_class(props: FileInputPropsView) -> Seq<char> {
    compose_spec(
        "file-input"@,
        seq![
            props.file_input_style.fragment(),
            props.file_input_color.fragment(),
            props.file_input_size.fragment(),
        ],
    )
}

/// The class string of a labelled file input has no space at either end and none doubled,
/// whatever the variants are.
pub proof fn lemma_file_input_class_tidy(props: FileInputPropsView)
    ensures
        is_tidy(file_input_class(props)),
{
    reveal_strlit("file-input");
    FileInputStyle::lemma_fragment_tidy(props.file_input_style);
    FileInputColor::lemma_fragment_tidy(props.file_input_color);
    FileInputSize::lemma_fragment_tidy(props.file_input_size);
    lemma_compose_tidy(
        "file-input"@,
        seq![
            props.file_input_style.fragment(),
            props.file_input_color.fragment(),
            props.file_input_size.fragment(),
        ],
    );
}

/// The tree of a labelled file input: the label text, then the control.
pub open spec fn file_input_tree<C>(props: FileInputPropsView) -> NodeView<C> {
    ElementView::new(Tag::Label)
        .attr("class"@, "flex flex-col gap-1"@)
        .child(
            ElementView::new(Tag::Span)
                .text(props.label)
                .node(),
        )
        .child(
            ElementView::new(Tag::Input)
                .attr("type"@, "file"@)
                .attr("class"@, file_input_class(props))
                .pass(props.attributes)
                .node(),
        )
        .node()
}

/// Renders a labelled file input.
pub fn FileInput<C>(props: FileInputProps) -> (out: Node<C>)
    ensures
        out.view() == file_input_tree::<C>(props@),
{
    let fragments = [
        props.file_input_style.resolve(),
        props.file_input_color.resolve(),
        props.file_input_size.resolve(),
    ];
    assert(texts(fragments@) =~= seq![
        props.file_input_style.fragment(),
        props.file_input_color.fragment(),
        props.file_input_size.fragment(),
    ]);
    let class = compose("file-input", &fragments);
    Element::new(Tag::Label)
        .attr("class", "flex flex-col gap-1")
        .child(
            Element::new(Tag::Span)
                .text(props.label.as_str())
                .into_node(),
        )
        .child(
            Element::new(Tag::Input)
                .attr("type", "file")
                .attr("class", class.as_str())
                .pass(&props.attributes)
                .into_node(),
        )
        .into_node()
}

/// Rendering is repeatable: props with the same value give the same tree.
pub proof fn lemma_file_input_repeatable<C>(first: FileInputProps, second: FileInputProps)
    requires
        first@ == second@,
    ensures
        file_input_tree::<C>(first@) == file_input_tree::<C>(second@),
{
}

} // verus!
