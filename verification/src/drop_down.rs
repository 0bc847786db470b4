//! Drop-downs and the links in them.

use crate::attr::{attrs_view, Attribute, AttributeView};
use crate::class::{compose, compose_spec, is_tidy, lemma_compose_tidy, texts};
use crate::node::{nodes_view, optional_text, Element, ElementView, Node, NodeView, Tag};
use crate::variant::Variant;
use vstd::prelude::*;

verus! {

/// The side on which a drop-down opens.
#[derive(Clone, Copy, Debug, PartialEq, Eq, Structural)]
pub enum Direction {
    /// No side is set.
    Unset,
    Top,
    Bottom,
    Left,
    Right,
}

impl Default for Direction {
    fn default() -> (out: Self)
        ensures
            out == Direction::Unset,
    {
        Direction::Unset
    }
}

impl Variant for Direction {
    open spec fn members() -> Seq<Self> {
        seq![
            Direction::Unset,
            Direction::Top,
            Direction::Bottom,
            Direction::Left,
            Direction::Right,
        ]
    }

    open spec fn fragment(self) -> Seq<char> {
        match self {
            Direction::Unset => ""@,
            Direction::Top => "dropdown-top"@,
            Direction::Bottom => "dropdown-bottom"@,
            Direction::Left => "dropdown-left"@,
            Direction::Right => "dropdown-right"@,
        }
    }

    open spec fn designated_default() -> Self {
        Direction::Unset
    }

    fn all() -> (out: Vec<Self>) {
        vec![
            Direction::Unset,
            Direction::Top,
            Direction::Bottom,
            Direction::Left,
            Direction::Right,
        ]
    }

    fn resolve(&self) -> (out: &'static str) {
        match self {
            Direction::Unset => "",
            Direction::Top => "dropdown-top",
            Direction::Bottom => "dropdown-bottom",
            Direction::Left => "dropdown-left",
            Direction::Right => "dropdown-right",
        }
    }

    proof fn lemma_members_complete(v: Self) {
        let all = Self::members();
        match v {
            Direction::Unset => assert(all[0] == v),
            Direction::Top => assert(all[1] == v),
            Direction::Bottom => assert(all[2] == v),
            Direction::Left => assert(all[3] == v),
            Direction::Right => assert(all[4] == v),
        }
    }

    proof fn lemma_fragment_tidy(v: Self) {
        reveal_strlit("");
        reveal_strlit("dropdown-top");
        reveal_strlit("dropdown-bottom");
        reveal_strlit("dropdown-left");
        reveal_strlit("dropdown-right");
    }

    proof fn lemma_fragments_distinct(a: Self, b: Self) {
        reveal_strlit("");
        reveal_strlit("dropdown-top");
        reveal_strlit("dropdown-bottom");
        reveal_strlit("dropdown-left");
        reveal_strlit("dropdown-right");
        assert(""@.len() == 0);
        assert("dropdown-top"@.len() == 12);
        assert("dropdown-bottom"@.len() == 15);
        assert("dropdown-left"@.len() == 13);
        assert("dropdown-right"@.len() == 14);
    }
}

/// What a drop-down is rendered from.
#[derive(Debug, PartialEq, Eq)]
pub struct DropDownProps<C> {
    pub children: C,
    /// The text on the trigger.
    pub button_text: String,
    /// Whether the trigger shows a caret where it has no icon.
    pub carat: bool,
    pub direction: Direction,
    /// The address of an icon before the text.
    pub prefix_image_src: Option<String>,
    /// The address of an icon after the text.
    pub suffix_image_src: Option<String>,
    /// Passthrough attributes for the `div` element.
    pub attributes: Vec<Attribute>,
}

/// The mathematical value of [`DropDownProps`].
pub struct DropDownPropsView<C> {
    pub children: C,
    pub button_text: Seq<char>,
    pub carat: bool,
    pub direction: Direction,
    pub prefix_image_src: Option<Seq<char>>,
    pub suffix_image_src: Option<Seq<char>>,
    pub attributes: Seq<AttributeView>,
}

impl<C> View for DropDownProps<C> {
    type V = DropDownPropsView<C>;

    open spec fn view(&self) -> DropDownPropsView<C> {
        DropDownPropsView {
            children: self.children,
            button_text: self.button_text@,
            carat: self.carat,
            direction: self.direction,
            prefix_image_src: optional_text(self.prefix_image_src),
            suffix_image_src: optional_text(self.suffix_image_src),
            attributes: attrs_view(self.attributes@),
        }
    }
}

impl<C> DropDownProps<C> {
    /// The props with what must be given, every variant at its default and
    /// no passthrough attribute.
    pub fn new(children: C, button_text: &str) -> (out: Self)
        ensures
            out@ == (DropDownPropsView {
                children,
                button_text: button_text@,
                carat: false,
                direction: Direction::designated_default(),
                prefix_image_src: None,
                suffix_image_src: None,
                attributes: Seq::empty(),
            }),
    {
        let out = DropDownProps {
            children,
            button_text: String::from_str(button_text),
            carat: false,
            direction: Direction::Unset,
            prefix_image_src: None,
            suffix_image_src: None,
            attributes: Vec::new(),
        };
        assert(out@.attributes =~= Seq::empty());
        out
    }
}

/// What the trigger of a drop-down shows beside its text. It shows one
/// thing at most.
pub enum Adornment {
    /// An icon before the text, with its address.
    LeadingIcon(Seq<char>),
    /// An icon after the text, with its address.
    TrailingIcon(Seq<char>),
    /// A caret after the text.
    Indicator,
    /// Nothing.
    Bare,
}

/// What the trigger shows: the leading icon where one is given; else the
/// trailing icon where one is given; else the caret where it is asked for;
/// else nothing.
pub open spec fn adornment(
    prefix_image_src: Option<Seq<char>>,
    suffix_image_src: Option<Seq<char>>,
    carat: bool,
) -> Adornment {
    match prefix_image_src {
        Some(src) => Adornment::LeadingIcon(src),
        None => match suffix_image_src {
            Some(src) => Adornment::TrailingIcon(src),
            None => if carat {
                Adornment::Indicator
            } else {
                Adornment::Bare
            },
        },
    }
}

/// The icon before the text.
pub open spec fn leading_icon<C>(src: Seq<char>) -> NodeView<C> {
    ElementView::new(Tag::Img)
        .attr("src"@, src)
        .attr("class"@, "mr-2"@)
        .attr("width"@, "16"@)
        .node()
}

/// The icon after the text.
pub open spec fn trailing_icon<C>(src: Seq<char>) -> NodeView<C> {
    ElementView::new(Tag::Img)
        .attr("src"@, src)
        .attr("class"@, "ml-2"@)
        .attr("width"@, "12"@)
        .node()
}

/// The caret.
pub open spec fn indicator<C>() -> NodeView<C> {
    ElementView::new(Tag::Div).attr("class"@, "dropdown-caret"@).node()
}

/// The text of the trigger.
pub open spec fn trigger_text<C>(text: Seq<char>) -> NodeView<C> {
    ElementView::new(Tag::Span).attr("class"@, "truncate"@).text(text).node()
}

/// What the trigger holds: its text, and beside it the adornment.
pub open spec fn trigger_children<C>(text: Seq<char>, beside: Adornment) -> Seq<NodeView<C>> {
    match beside {
        Adornment::LeadingIcon(src) => seq![leading_icon(src), trigger_text(text)],
        Adornment::TrailingIcon(src) => seq![trigger_text(text), trailing_icon(src)],
        Adornment::Indicator => seq![trigger_text(text), indicator()],
        Adornment::Bare => seq![trigger_text(text)],
    }
}

/// The class string of a drop-down: the base class, then the direction
/// where one is set.
pub open spec fn drop_down_class(direction: Direction) -> Seq<char> {
    compose_spec("dropdown"@, seq![direction.fragment()])
}

/// The class string of the menu of a drop-down: the classes of the menu,
/// then the direction where one is set.
pub open spec fn menu_class(direction: Direction) -> Seq<char> {
    compose_spec(
        "dropdown-content z-[1] menu p-2 shadow bg-base-100 rounded-box w-52"@,
        seq![direction.fragment()],
    )
}

/// Both class strings of a drop-down have no space at either end and none
/// doubled, whatever the direction is.
pub proof fn lemma_drop_down_classes_tidy(direction: Direction)
    ensures
        is_tidy(drop_down_class(direction)),
        is_tidy(menu_class(direction)),
{
    reveal_strlit("dropdown");
    reveal_strlit("dropdown-content z-[1] menu p-2 shadow bg-base-100 rounded-box w-52");
    Direction::lemma_fragment_tidy(direction);
    lemma_compose_tidy("dropdown"@, seq![direction.fragment()]);
    lemma_compose_tidy(
        "dropdown-content z-[1] menu p-2 shadow bg-base-100 rounded-box w-52"@,
        seq![direction.fragment()],
    );
}

/// The tree of a drop-down: a `div` with the drop-down classes around the
/// trigger and the menu, the menu around the content.
pub open spec fn drop_down_tree<C>(props: DropDownPropsView<C>) -> NodeView<C> {
    ElementView::new(Tag::Div)
        .attr("class"@, drop_down_class(props.direction))
        .pass(props.attributes)
        .child(
            ElementView::new(Tag::Label)
                .attr("tabindex"@, "0"@)
                .attr("class"@, "btn btn-default btn-sm m-1 w-full flex flex-nowrap justify-between"@)
                .attr("aria-haspopup"@, "true"@)
                .extend(
                    trigger_children(
                        props.button_text,
                        adornment(props.prefix_image_src, props.suffix_image_src, props.carat),
                    ),
                )
                .node(),
        )
        .child(
            ElementView::new(Tag::Ul)
                .attr("tabindex"@, "0"@)
                .attr("class"@, menu_class(props.direction))
                .child(NodeView::Content(props.children))
                .node(),
        )
        .node()
}

/// Builds what the trigger holds.
pub fn trigger_nodes<C>(
    button_text: &str,
    carat: bool,
    prefix_image_src: &Option<String>,
    suffix_image_src: &Option<String>,
) -> (out: Vec<Node<C>>)
    ensures
        nodes_view(out@) == trigger_children::<C>(
            button_text@,
            adornment(optional_text(*prefix_image_src), optional_text(*suffix_image_src), carat),
        ),
{
    let text = Element::new(Tag::Span).attr("class", "truncate").text(button_text).into_node();
    let mut out: Vec<Node<C>> = Vec::new();
    match prefix_image_src {
        Some(src) => {
            let icon = Element::new(Tag::Img)
                .attr("src", src.as_str())
                .attr("class", "mr-2")
                .attr("width", "16")
                .into_node();
            out.push(icon);
            out.push(text);
            assert(nodes_view(out@) =~= seq![leading_icon(src@), trigger_text(button_text@)]);
        },
        None => match suffix_image_src {
            Some(src) => {
                let icon = Element::new(Tag::Img)
                    .attr("src", src.as_str())
                    .attr("class", "ml-2")
                    .attr("width", "12")
                    .into_node();
                out.push(text);
                out.push(icon);
                assert(nodes_view(out@) =~= seq![trigger_text(button_text@), trailing_icon(src@)]);
            },
            None => {
                out.push(text);
                if carat {
                    let caret = Element::new(Tag::Div).attr("class", "dropdown-caret").into_node();
                    out.push(caret);
                    assert(nodes_view(out@) =~= seq![trigger_text(button_text@), indicator()]);
                } else {
                    assert(nodes_view(out@) =~= seq![trigger_text(button_text@)]);
                }
            },
        },
    }
    out
}

/// Renders a drop-down.
pub fn DropDown<C>(props: DropDownProps<C>) -> (out: Node<C>)
    ensures
        out.view() == drop_down_tree::<C>(props@),
{
    let fragments = [props.direction.resolve()];
    assert(texts(fragments@) =~= seq![props.direction.fragment()]);
    let class = compose("dropdown", &fragments);
    let menu = compose(
        "dropdown-content z-[1] menu p-2 shadow bg-base-100 rounded-box w-52",
        &fragments,
    );
    let held = trigger_nodes(
        props.button_text.as_str(),
        props.carat,
        &props.prefix_image_src,
        &props.suffix_image_src,
    );
    Element::new(Tag::Div)
        .attr("class", class.as_str())
        .pass(&props.attributes)
        .child(
            Element::new(Tag::Label)
                .attr("tabindex", "0")
                .attr("class", "btn btn-default btn-sm m-1 w-full flex flex-nowrap justify-between")
                .attr("aria-haspopup", "true")
                .extend(held)
                .into_node(),
        )
        .child(
            Element::new(Tag::Ul)
                .attr("tabindex", "0")
                .attr("class", menu.as_str())
                .child(Node::content(props.children))
                .into_node(),
        )
        .into_node()
}

/// Rendering is repeatable: props with the same value give the same tree.
pub proof fn lemma_drop_down_repeatable<C>(first: DropDownProps<C>, second: DropDownProps<C>)
    requires
        first@ == second@,
    ensures
        drop_down_tree(first@) == drop_down_tree(second@),
{
}

/// A trigger without icons that is asked for a caret holds its text and the
/// caret, and nothing else.
pub proof fn lemma_caret_alone<C>(text: Seq<char>)
    ensures
        trigger_children::<C>(text, adornment(None, None, true)) == seq![
            trigger_text::<C>(text),
            indicator::<C>(),
        ],
{
}

/// The trigger holds its text once, and one thing beside it at most: two
/// nodes where it has an adornment, one where it has none.
pub proof fn lemma_one_adornment_at_most<C>(text: Seq<char>, beside: Adornment)
    ensures
        trigger_children::<C>(text, beside).contains(trigger_text(text)),
        trigger_children::<C>(text, beside).len() == if beside is Bare {
            1nat
        } else {
            2nat
        },
{
    let held = trigger_children::<C>(text, beside);
    match beside {
        Adornment::LeadingIcon(_) => assert(held[1] == trigger_text::<C>(text)),
        _ => assert(held[0] == trigger_text::<C>(text)),
    }
}

/// What a link in a drop-down is rendered from.
#[derive(Debug, PartialEq, Eq)]
pub struct DropDownLinkProps<C> {
    pub children: C,
    /// Passthrough attributes for the `a` element.
    pub attributes: Vec<Attribute>,
}

/// The mathematical value of [`DropDownLinkProps`].
pub struct DropDownLinkPropsView<C> {
    pub children: C,
    pub attributes: Seq<AttributeView>,
}

impl<C> View for DropDownLinkProps<C> {
    type V = DropDownLinkPropsView<C>;

    open spec fn view(&self) -> DropDownLinkPropsView<C> {
        DropDownLinkPropsView {
            children: self.children,
            attributes: attrs_view(self.attributes@),
        }
    }
}

impl<C> DropDownLinkProps<C> {
    /// The props with what must be given, every variant at its default and
    /// no passthrough attribute.
    pub fn new(children: C) -> (out: Self)
        ensures
            out@ == (DropDownLinkPropsView {
                children,
                attributes: Seq::empty(),
            }),
    {
        let out = DropDownLinkProps {
            children,
            attributes: Vec::new(),
        };
        assert(out@.attributes =~= Seq::empty());
        out
    }
}

/// The tree of a link in a drop-down: a list item around the link.
pub open spec fn drop_down_link_tree<C>(props: DropDownLinkPropsView<C>) -> NodeView<C> {
    ElementView::new(Tag::Li)
        .child(
            ElementView::new(Tag::A)
                .attr("class"@, "dropdown-item"@)
                .pass(props.attributes)
                .child(NodeView::Content(props.children))
                .node(),
        )
        .node()
}

/// Renders a link in a drop-down.
pub fn DropDownLink<C>(props: DropDownLinkProps<C>) -> (out: Node<C>)
    ensures
        out.view() == drop_down_link_tree::<C>(props@),
{
    Element::new(Tag::Li)
        .child(
            Element::new(Tag::A)
                .attr("class", "dropdown-item")
                .pass(&props.attributes)
                .child(Node::content(props.children))
                .into_node(),
        )
        .into_node()
}

/// Rendering is repeatable: props with the same value give the same tree.
pub proof fn lemma_drop_down_link_repeatable<C>(
    first: DropDownLinkProps<C>,
    second: DropDownLinkProps<C>,
)
    requires
        first@ == second@,
    ensures
        drop_down_link_tree(first@) == drop_down_link_tree(second@),
{
}

} // verus!
