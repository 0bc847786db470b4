//! Rows of tabs and their panels.

use crate::attr::{attrs_view, Attribute, AttributeView};
use crate::node::{nodes_view, Element, ElementView, Node, NodeView, Tag};
use vstd::prelude::*;

verus! {

/// What a row of tabs is rendered from.
#[derive(Debug, PartialEq, Eq)]
pub struct TabContainerProps<C> {
    pub children: C,
    /// Passthrough attributes for the `div` element.
    pub attributes: Vec<Attribute>,
}

/// The mathematical value of [`TabContainerProps`].
pub struct TabContainerPropsView<C> {
    pub children: C,
    pub attributes: Seq<AttributeView>,
}

impl<C> View for TabContainerProps<C> {
    type V = TabContainerPropsView<C>;

    open spec fn view(&self) -> TabContainerPropsView<C> {
        TabContainerPropsView {
            children: self.children,
            attributes: attrs_view(self.attributes@),
        }
    }
}

impl<C> TabContainerProps<C> {
    /// The props with what must be given, every variant at its default and
    /// no passthrough attribute.
    pub fn new(children: C) -> (out: Self)
        ensures
            out@ == (TabContainerPropsView {
                children,
                attributes: Seq::empty(),
            }),
    {
        let out = TabContainerProps {
            children,
            attributes: Vec::new(),
        };
        assert(out@.attributes =~= Seq::empty());
        out
    }
}

/// The tree of a row of tabs.
pub open spec fn tab_container_tree<C>(props: TabContainerPropsView<C>) -> NodeView<C> {
    ElementView::new(Tag::Div)
        .attr("role"@, "tablist"@)
        .attr("class"@, "tabs tabs-border"@)
        .pass(props.attributes)
        .child(NodeView::Content(props.children))
        .node()
}

/// Renders a row of tabs.
pub fn TabContainer<C>(props: TabContainerProps<C>) -> (out: Node<C>)
    ensures
        out.view() == tab_container_tree::<C>(props@),
{
    Element::new(Tag::Div)
        .attr("role", "tablist")
        .attr("class", "tabs tabs-border")
        .pass(&props.attributes)
        .child(Node::content(props.children))
        .into_node()
}

/// Rendering is repeatable: props with the same value give the same tree.
pub proof fn lemma_tab_container_repeatable<C>(
    first: TabContainerProps<C>,
    second: TabContainerProps<C>,
)
    requires
        first@ == second@,
    ensures
        tab_container_tree(first@) == tab_container_tree(second@),
{
}

/// What one tab and its panel are rendered from.
#[derive(Debug, PartialEq, Eq)]
pub struct TabPanelProps<C> {
    /// The name of the radio group that the tabs of one row share.
    pub name: String,
    /// The text on the tab.
    pub tab_name: String,
    pub children: C,
    /// Whether this tab is the open one at first.
    pub checked: bool,
    /// Passthrough attributes for the `input` element.
    pub attributes: Vec<Attribute>,
}

/// The mathematical value of [`TabPanelProps`].
pub struct TabPanelPropsView<C> {
    pub name: Seq<char>,
    pub tab_name: Seq<char>,
    pub children: C,
    pub checked: bool,
    pub attributes: Seq<AttributeView>,
}

impl<C> View for TabPanelProps<C> {
    type V = TabPanelPropsView<C>;

    open spec fn view(&self) -> TabPanelPropsView<C> {
        TabPanelPropsView {
            name: self.name@,
            tab_name: self.tab_name@,
            children: self.children,
            checked: self.checked,
            attributes: attrs_view(self.attributes@),
        }
    }
}

impl<C> TabPanelProps<C> {
    /// The props with what must be given, every variant at its default and
    /// no passthrough attribute.
    pub fn new(name: &str, tab_name: &str, children: C) -> (out: Self)
        ensures
            out@ == (TabPanelPropsView {
                name: name@,
                tab_name: tab_name@,
                children,
                checked: false,
                attributes: Seq::empty(),
            }),
    {
        let out = TabPanelProps {
            name: String::from_str(name),
            tab_name: String::from_str(tab_name),
            children,
            checked: false,
            attributes: Vec::new(),
        };
        assert(out@.attributes =~= Seq::empty());
        out
    }
}

/// The two trees of a tab: the radio control that is the tab, then the panel
/// with the content.
pub open spec fn tab_panel_trees<C>(props: TabPanelPropsView<C>) -> Seq<NodeView<C>> {
    seq![
        ElementView::new(Tag::Input)
            .flag("checked"@, props.checked)
            .attr("type"@, "radio"@)
            .attr("class"@, "tab"@)
            .attr("aria-label"@, props.tab_name)
            .attr("name"@, props.name)
            .pass(props.attributes)
            .node(),
        ElementView::new(Tag::Div)
            .attr("role"@, "tabpanel"@)
            .attr("class"@, "tab-content"@)
            .child(NodeView::Content(props.children))
            .node(),
    ]
}

/// Renders one tab and its panel, two elements side by side.
pub fn TabPanel<C>(props: TabPanelProps<C>) -> (out: Vec<Node<C>>)
    ensures
        nodes_view(out@) == tab_panel_trees::<C>(props@),
{
    let first = Element::new(Tag::Input)
        .flag("checked", props.checked)
        .attr("type", "radio")
        .attr("class", "tab")
        .attr("aria-label", props.tab_name.as_str())
        .attr("name", props.name.as_str())
        .pass(&props.attributes)
        .into_node();
    let second = Element::new(Tag::Div)
        .attr("role", "tabpanel")
        .attr("class", "tab-content")
        .child(Node::content(props.children))
        .into_node();
    let mut out = Vec::new();
    out.push(first);
    out.push(second);
    assert(nodes_view(out@) =~= tab_panel_trees::<C>(props@));
    out
}

/// Rendering is repeatable: props with the same value give the same tree.
pub proof fn lemma_tab_panel_repeatable<C>(first: TabPanelProps<C>, second: TabPanelProps<C>)
    requires
        first@ == second@,
    ensures
        tab_panel_trees(first@) == tab_panel_trees(second@),
{
}

} // verus!
