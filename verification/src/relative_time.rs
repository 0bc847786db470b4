//! Relative times.

use crate::attr::{};
use crate::node::{Element, ElementView, Node, NodeView, Tag};
use crate::variant::Variant;
use vstd::prelude::*;

verus! {

/// How a relative time is worded. The fragment of a member is the keyword
/// that the `relative-time` element expects in its `format` attribute.
#[derive(Clone, Copy, Debug, PartialEq, Eq, Structural)]
pub enum RelativeTimeFormat {
    Datetime,
    Relative,
    Duration,
    Auto,
    Micro,
    Elapsed,
}

impl Default for RelativeTimeFormat {
    fn default() -> (out: Self)
        ensures
            out == RelativeTimeFormat::Relative,
    {
        RelativeTimeFormat::Relative
    }
}

impl Variant for RelativeTimeFormat {
    open spec fn members() -> Seq<Self> {
        seq![
            RelativeTimeFormat::Datetime,
            RelativeTimeFormat::Relative,
            RelativeTimeFormat::Duration,
            RelativeTimeFormat::Auto,
            RelativeTimeFormat::Micro,
            RelativeTimeFormat::Elapsed,
        ]
    }

    open spec fn fragment(self) -> Seq<char> {
        match self {
            RelativeTimeFormat::Datetime => "datetime"@,
            RelativeTimeFormat::Relative => "relative"@,
            RelativeTimeFormat::Duration => "duration"@,
            RelativeTimeFormat::Auto => "auto"@,
            RelativeTimeFormat::Micro => "micro"@,
            RelativeTimeFormat::Elapsed => "elapsed"@,
        }
    }

    open spec fn designated_default() -> Self {
        RelativeTimeFormat::Relative
    }

    fn all() -> (out: Vec<Self>) {
        vec![
            RelativeTimeFormat::Datetime,
            RelativeTimeFormat::Relative,
            RelativeTimeFormat::Duration,
            RelativeTimeFormat::Auto,
            RelativeTimeFormat::Micro,
            RelativeTimeFormat::Elapsed,
        ]
    }

    fn resolve(&self) -> (out: &'static str) {
        match self {
            RelativeTimeFormat::Datetime => "datetime",
            RelativeTimeFormat::Relative => "relative",
            RelativeTimeFormat::Duration => "duration",
            RelativeTimeFormat::Auto => "auto",
            RelativeTimeFormat::Micro => "micro",
            RelativeTimeFormat::Elapsed => "elapsed",
        }
    }

    proof fn lemma_members_complete(v: Self) {
        let all = Self::members();
        match v {
            RelativeTimeFormat::Datetime => assert(all[0] == v),
            RelativeTimeFormat::Relative => assert(all[1] == v),
            RelativeTimeFormat::Duration => assert(all[2] == v),
            RelativeTimeFormat::Auto => assert(all[3] == v),
            RelativeTimeFormat::Micro => assert(all[4] == v),
            RelativeTimeFormat::Elapsed => assert(all[5] == v),
        }
    }

    proof fn lemma_fragment_tidy(v: Self) {
        reveal_strlit("datetime");
        reveal_strlit("relative");
        reveal_strlit("duration");
        reveal_strlit("auto");
        reveal_strlit("micro");
        reveal_strlit("elapsed");
    }

    proof fn lemma_fragments_distinct(a: Self, b: Self) {
        reveal_strlit("datetime");
        reveal_strlit("relative");
        reveal_strlit("duration");
        reveal_strlit("auto");
        reveal_strlit("micro");
        reveal_strlit("elapsed");
        // Fragments of one length differ in a letter.
        assert("datetime"@.len() == 8 && "datetime"@[1] == 'a');
        assert("relative"@.len() == 8 && "relative"@[1] == 'e');
        assert("duration"@.len() == 8 && "duration"@[1] == 'u');
        assert("auto"@.len() == 4);
        assert("micro"@.len() == 5);
        assert("elapsed"@.len() == 7);
    }
}

/// What a relative time is rendered from.
#[derive(Debug, PartialEq, Eq)]
pub struct RelativeTimeProps {
    pub format: Option<RelativeTimeFormat>,
    /// The moment, as the `relative-time` element reads it.
    pub datetime: String,
}

/// The mathematical value of [`RelativeTimeProps`].
pub struct RelativeTimePropsView {
    pub format: Option<RelativeTimeFormat>,
    pub datetime: Seq<char>,
}

impl View for RelativeTimeProps {
    type V = RelativeTimePropsView;

    open spec fn view(&self) -> RelativeTimePropsView {
        RelativeTimePropsView {
            format: self.format,
            datetime: self.datetime@,
        }
    }
}

impl RelativeTimeProps {
    /// The props with what must be given, every variant at its default and
    /// no passthrough attribute.
    pub fn new(datetime: &str) -> (out: Self)
        ensures
            out@ == (RelativeTimePropsView {
                format: None,
                datetime: datetime@,
            }),
    {
        let out = RelativeTimeProps {
            format: None,
            datetime: String::from_str(datetime),
        };
        out
    }
}

/// The format that is used: the one given, or the default where none is.
pub open spec fn chosen_format(format: Option<RelativeTimeFormat>) -> RelativeTimeFormat {
    match format {
        Some(given) => given,
        None => RelativeTimeFormat::designated_default(),
    }
}

/// The tree of a relative time: a `relative-time` element with the moment
/// and the keyword of the format. The page must load the script that
/// defines that element; nothing here checks that it has.
pub open spec fn relative_time_tree<C>(props: RelativeTimePropsView) -> NodeView<C> {
    ElementView::new(Tag::RelativeTime)
        .attr("datetime"@, props.datetime)
        .attr("format"@, chosen_format(props.format).fragment())
        .node()
}

/// Renders a relative time.
pub fn RelativeTime<C>(props: RelativeTimeProps) -> (out: Node<C>)
    ensures
        out.view() == relative_time_tree::<C>(props@),
{
    let format = match props.format {
        Some(given) => given,
        None => RelativeTimeFormat::Relative,
    };
    Element::new(Tag::RelativeTime)
        .attr("datetime", props.datetime.as_str())
        .attr("format", format.resolve())
        .into_node()
}

/// Rendering is repeatable: props with the same value give the same tree.
pub proof fn lemma_relative_time_repeatable<C>(
    first: RelativeTimeProps,
    second: RelativeTimeProps,
)
    requires
        first@ == second@,
    ensures
        relative_time_tree::<C>(first@) == relative_time_tree::<C>(second@),
{
}

} // verus!
