//! The tree that a component renders: elements with their attributes, text,
//! and the content that the caller nests in a component.

use crate::attr::{
    attrs_view, distinct_names, flag_attr, lemma_merge_value, merge, merge_spec, text_attr,
    Attribute, AttributeView,
};
use vstd::prelude::*;

verus! {

/// The elements that the components emit.
#[derive(Clone, Copy, Debug, PartialEq, Eq, Structural)]
pub enum Tag {
    A,
    Button,
    Dialog,
    Div,
    Fieldset,
    Form,
    H3,
    H4,
    Header,
    Img,
    Input,
    Label,
    Legend,
    Li,
    Option,
    RelativeTime,
    Select,
    Span,
    Textarea,
    Ul,
}

impl Tag {
    /// The element's name as markup spells it.
    pub open spec fn spelling(self) -> Seq<char> {
        match self {
            Tag::A => "a"@,
            Tag::Button => "button"@,
            Tag::Dialog => "dialog"@,
            Tag::Div => "div"@,
            Tag::Fieldset => "fieldset"@,
            Tag::Form => "form"@,
            Tag::H3 => "h3"@,
            Tag::H4 => "h4"@,
            Tag::Header => "header"@,
            Tag::Img => "img"@,
            Tag::Input => "input"@,
            Tag::Label => "label"@,
            Tag::Legend => "legend"@,
            Tag::Li => "li"@,
            Tag::Option => "option"@,
            Tag::RelativeTime => "relative-time"@,
            Tag::Select => "select"@,
            Tag::Span => "span"@,
            Tag::Textarea => "textarea"@,
            Tag::Ul => "ul"@,
        }
    }

    /// The element's name as markup spells it.
    pub fn name(&self) -> (out: &'static str)
        ensures
            out@ == self.spelling(),
    {
        match self {
            Tag::A => "a",
            Tag::Button => "button",
            Tag::Dialog => "dialog",
            Tag::Div => "div",
            Tag::Fieldset => "fieldset",
            Tag::Form => "form",
            Tag::H3 => "h3",
            Tag::H4 => "h4",
            Tag::Header => "header",
            Tag::Img => "img",
            Tag::Input => "input",
            Tag::Label => "label",
            Tag::Legend => "legend",
            Tag::Li => "li",
            Tag::Option => "option",
            Tag::RelativeTime => "relative-time",
            Tag::Select => "select",
            Tag::Span => "span",
            Tag::Textarea => "textarea",
            Tag::Ul => "ul",
        }
    }
}

/// A rendered node. `C` is the type of the content that callers nest in
/// components; the library carries such content and never looks into it.
#[derive(Debug, PartialEq, Eq)]
pub enum Node<C> {
    Element(Element<C>),
    Text(String),
    Content(C),
}

/// A rendered element.
#[derive(Debug, PartialEq, Eq)]
pub struct Element<C> {
    pub tag: Tag,
    pub attributes: Vec<Attribute>,
    pub children: Vec<Node<C>>,
}

/// The mathematical value of a [`Node`].
pub enum NodeView<C> {
    Element(ElementView<C>),
    Text(Seq<char>),
    Content(C),
}

/// The mathematical value of an [`Element`].
pub struct ElementView<C> {
    pub tag: Tag,
    pub attributes: Seq<AttributeView>,
    pub children: Seq<NodeView<C>>,
}

/// The text of a string that may be absent.
pub open spec fn optional_text(text: Option<String>) -> Option<Seq<char>> {
    match text {
        Some(text) => Some(text@),
        None => None,
    }
}

/// The values of a list of nodes.
pub open spec fn nodes_view<C>(nodes: Seq<Node<C>>) -> Seq<NodeView<C>> {
    Seq::new(nodes.len(), |i: int| nodes[i].view())
}

impl<C> Node<C> {
    pub open spec fn view(&self) -> NodeView<C>
        decreases self,
    {
        match self {
            Node::Element(e) => NodeView::Element(
                ElementView {
                    tag: e.tag,
                    attributes: attrs_view(e.attributes@),
                    children: Seq::new(
                        e.children.len() as nat,
                        |i: int|
                            if 0 <= i < e.children.len() {
                                e.children[i].view()
                            } else {
                                NodeView::Text(Seq::empty())
                            },
                    ),
                },
            ),
            Node::Text(t) => NodeView::Text(t@),
            Node::Content(c) => NodeView::Content(*c),
        }
    }

    /// A text node.
    pub fn text(text: &str) -> (out: Node<C>)
        ensures
            out.view() == NodeView::<C>::Text(text@),
    {
        Node::Text(String::from_str(text))
    }

    /// The caller's content, carried as it is.
    pub fn content(content: C) -> (out: Node<C>)
        ensures
            out.view() == NodeView::Content(content),
    {
        Node::Content(content)
    }
}

impl<C> Element<C> {
    pub open spec fn view(&self) -> ElementView<C> {
        ElementView {
            tag: self.tag,
            attributes: attrs_view(self.attributes@),
            children: nodes_view(self.children@),
        }
    }

    /// An element without attributes or children.
    pub fn new(tag: Tag) -> (out: Element<C>)
        ensures
            out.view() == ElementView::<C>::new(tag),
    {
        let out = Element { tag, attributes: Vec::new(), children: Vec::new() };
        assert(out.view().attributes =~= Seq::empty());
        assert(out.view().children =~= Seq::empty());
        out
    }

    /// Adds an attribute that holds text.
    pub fn attr(self, name: &str, value: &str) -> (out: Element<C>)
        ensures
            out.view() == self.view().attr(name@, value@),
    {
        let mut out = self;
        out.attributes.push(Attribute::text(name, value));
        assert(out.view().attributes =~= self.view().attributes.push(text_attr(name@, value@)));
        out
    }

    /// Adds an attribute that holds a flag.
    pub fn flag(self, name: &str, value: bool) -> (out: Element<C>)
        ensures
            out.view() == self.view().flag(name@, value),
    {
        let mut out = self;
        out.attributes.push(Attribute::flag(name, value));
        assert(out.view().attributes =~= self.view().attributes.push(flag_attr(name@, value)));
        out
    }

    /// Merges the caller's passthrough attributes onto the attributes that
    /// the element has so far.
    pub fn pass(self, passthrough: &Vec<Attribute>) -> (out: Element<C>)
        ensures
            out.view() == self.view().pass(attrs_view(passthrough@)),
    {
        let Element { tag, attributes, children } = self;
        Element { tag, attributes: merge(attributes, passthrough), children }
    }

    /// Adds a child after the children that the element has so far.
    pub fn child(self, node: Node<C>) -> (out: Element<C>)
        ensures
            out.view() == self.view().child(node.view()),
    {
        let mut out = self;
        out.children.push(node);
        assert(out.view().children =~= self.view().children.push(node.view()));
        out
    }

    /// Adds a text node after the children that the element has so far.
    pub fn text(self, text: &str) -> (out: Element<C>)
        ensures
            out.view() == self.view().child(NodeView::Text(text@)),
    {
        self.child(Node::text(text))
    }

    /// Adds nodes, in their order, after the children that the element has
    /// so far.
    pub fn extend(self, nodes: Vec<Node<C>>) -> (out: Element<C>)
        ensures
            out.view() == self.view().extend(nodes_view(nodes@)),
    {
        let mut out = self;
        let mut rest = nodes;
        out.children.append(&mut rest);
        assert(out.view().children =~= self.view().children + nodes_view(nodes@));
        out
    }

    /// The element as a node.
    pub fn into_node(self) -> (out: Node<C>)
        ensures
            out.view() == NodeView::Element(self.view()),
    {
        let out = Node::Element(self);
        assert(out.view()->Element_0.children =~= self.view().children);
        out
    }
}

impl<C> ElementView<C> {
    /// An element without attributes or children.
    pub open spec fn new(tag: Tag) -> ElementView<C> {
        ElementView { tag, attributes: Seq::empty(), children: Seq::empty() }
    }

    /// The element with one more attribute, which holds text.
    pub open spec fn attr(self, name: Seq<char>, value: Seq<char>) -> ElementView<C> {
        ElementView { attributes: self.attributes.push(text_attr(name, value)), ..self }
    }

    /// The element with one more attribute, which holds a flag.
    pub open spec fn flag(self, name: Seq<char>, value: bool) -> ElementView<C> {
        ElementView { attributes: self.attributes.push(flag_attr(name, value)), ..self }
    }

    /// The element with passthrough attributes merged onto its own.
    pub open spec fn pass(self, passthrough: Seq<AttributeView>) -> ElementView<C> {
        ElementView { attributes: merge_spec(self.attributes, passthrough), ..self }
    }

    /// The element with one more child.
    pub open spec fn child(self, node: NodeView<C>) -> ElementView<C> {
        ElementView { children: self.children.push(node), ..self }
    }

    /// The element with more children.
    pub open spec fn extend(self, nodes: Seq<NodeView<C>>) -> ElementView<C> {
        ElementView { children: self.children + nodes, ..self }
    }

    /// The element with one more child, a text node.
    pub open spec fn text(self, text: Seq<char>) -> ElementView<C> {
        self.child(NodeView::Text(text))
    }

    /// The element as a node.
    pub open spec fn node(self) -> NodeView<C> {
        NodeView::Element(self)
    }
}

/// Passing attributes through keeps the attributes of an element a mapping:
/// where no name occurred twice before, none does after, whatever is passed
/// through. The tag and the children stay as they are.
pub proof fn lemma_pass_keeps_mapping<C>(element: ElementView<C>, passthrough: Seq<AttributeView>)
    requires
        distinct_names(element.attributes),
    ensures
        distinct_names(element.pass(passthrough).attributes),
        element.pass(passthrough).tag == element.tag,
        element.pass(passthrough).children == element.children,
{
    lemma_merge_value(element.attributes, passthrough, Seq::empty());
}

} // verus!
