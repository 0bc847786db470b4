//! Attributes of an element, and the merge of the attributes that a caller
//! passes through onto those that a component computes.
//!
//! The computed `class` is never replaced: a class that is passed through is
//! joined to it. For every other name the passthrough value wins over the
//! computed one, and the last passthrough value over the earlier ones. That
//! precedence is a choice of this library, made so that callers can override
//! what a component sets by default.

use crate::class::{
    compose_spec, is_tidy, join_fragment, lemma_compose_keeps_all, lemma_compose_tidy, occurs_in,
    push_fragment,
};
use vstd::prelude::*;

verus! {

/// What an attribute can hold: text, a flag, or a reference to an event
/// handler that the caller keeps.
#[derive(Debug, PartialEq, Eq)]
pub enum AttrValue {
    Text(String),
    Flag(bool),
    Handler(u64),
}

/// The mathematical value of an [`AttrValue`].
pub enum AttrValueView {
    Text(Seq<char>),
    Flag(bool),
    Handler(u64),
}

impl View for AttrValue {
    type V = AttrValueView;

    open spec fn view(&self) -> AttrValueView {
        match self {
            AttrValue::Text(s) => AttrValueView::Text(s@),
            AttrValue::Flag(b) => AttrValueView::Flag(*b),
            AttrValue::Handler(h) => AttrValueView::Handler(*h),
        }
    }
}

impl Clone for AttrValue {
    fn clone(&self) -> (out: Self)
        ensures
            out@ == self@,
    {
        match self {
            AttrValue::Text(s) => AttrValue::Text(s.clone()),
            AttrValue::Flag(b) => AttrValue::Flag(*b),
            AttrValue::Handler(h) => AttrValue::Handler(*h),
        }
    }
}

/// One attribute: a name and its value.
#[derive(Debug, PartialEq, Eq)]
pub struct Attribute {
    pub name: String,
    pub value: AttrValue,
}

/// The mathematical value of an [`Attribute`].
pub struct AttributeView {
    pub name: Seq<char>,
    pub value: AttrValueView,
}

impl View for Attribute {
    type V = AttributeView;

    open spec fn view(&self) -> AttributeView {
        AttributeView { name: self.name@, value: self.value@ }
    }
}

impl Clone for Attribute {
    fn clone(&self) -> (out: Self)
        ensures
            out@ == self@,
    {
        Attribute { name: self.name.clone(), value: self.value.clone() }
    }
}

/// The attribute `name="value"`, as a mathematical value.
pub open spec fn text_attr(name: Seq<char>, value: Seq<char>) -> AttributeView {
    AttributeView { name, value: AttrValueView::Text(value) }
}

/// The attribute `name` with a flag, as a mathematical value.
pub open spec fn flag_attr(name: Seq<char>, value: bool) -> AttributeView {
    AttributeView { name, value: AttrValueView::Flag(value) }
}

impl Attribute {
    /// An attribute that holds text.
    pub fn text(name: &str, value: &str) -> (out: Attribute)
        ensures
            out@ == text_attr(name@, value@),
    {
        Attribute { name: String::from_str(name), value: AttrValue::Text(String::from_str(value)) }
    }

    /// An attribute that holds a flag.
    pub fn flag(name: &str, value: bool) -> (out: Attribute)
        ensures
            out@ == flag_attr(name@, value),
    {
        Attribute { name: String::from_str(name), value: AttrValue::Flag(value) }
    }

    /// An attribute that refers to an event handler of the caller.
    pub fn handler(name: &str, id: u64) -> (out: Attribute)
        ensures
            out@ == (AttributeView { name: name@, value: AttrValueView::Handler(id) }),
    {
        Attribute { name: String::from_str(name), value: AttrValue::Handler(id) }
    }
}

/// The values of a list of attributes.
pub open spec fn attrs_view(attrs: Seq<Attribute>) -> Seq<AttributeView> {
    attrs.map_values(|a: Attribute| a@)
}

/// Some attribute of the list has this name.
pub open spec fn has_name(attrs: Seq<AttributeView>, name: Seq<char>) -> bool {
    exists|i: int| 0 <= i < attrs.len() && (#[trigger] attrs[i]).name == name
}

/// `i` is the place of the first attribute with this name.
pub open spec fn is_first(attrs: Seq<AttributeView>, name: Seq<char>, i: int) -> bool {
    &&& 0 <= i < attrs.len()
    &&& attrs[i].name == name
    &&& forall|j: int| 0 <= j < i ==> (#[trigger] attrs[j]).name != name
}

/// The place of the first attribute with this name, where there is one.
pub open spec fn first_index(attrs: Seq<AttributeView>, name: Seq<char>) -> int {
    choose|i: int| is_first(attrs, name, i)
}

/// The value that the list gives to a name: that of the first attribute
/// that has it.
pub open spec fn value_of(attrs: Seq<AttributeView>, name: Seq<char>) -> Option<AttrValueView> {
    if has_name(attrs, name) {
        Some(attrs[first_index(attrs, name)].value)
    } else {
        None
    }
}

/// No name occurs twice.
pub open spec fn distinct_names(attrs: Seq<AttributeView>) -> bool {
    forall|i: int, j: int|
        0 <= i < j < attrs.len() ==> (#[trigger] attrs[i]).name != (#[trigger] attrs[j]).name
}

/// The value of a name that is set again. Any name but `class` takes the
/// value given. A text given for `class` is joined to the class string that
/// is there; a `class` that is no text leaves a class string as it is.
pub open spec fn overlay(
    name: Seq<char>,
    current: AttrValueView,
    given: AttrValueView,
) -> AttrValueView {
    if name == "class"@ {
        match current {
            AttrValueView::Text(c) => match given {
                AttrValueView::Text(p) => AttrValueView::Text(join_fragment(c, p)),
                _ => current,
            },
            _ => given,
        }
    } else {
        given
    }
}

/// The list after one attribute is set: in place where its name is there
/// already, at the end where it is new.
pub open spec fn put_spec(attrs: Seq<AttributeView>, given: AttributeView) -> Seq<AttributeView> {
    if has_name(attrs, given.name) {
        let i = first_index(attrs, given.name);
        attrs.update(
            i,
            AttributeView {
                name: given.name,
                value: overlay(given.name, attrs[i].value, given.value),
            },
        )
    } else {
        attrs.push(given)
    }
}

/// The computed attributes with the passthrough attributes set on top of
/// them, one after the other.
pub open spec fn merge_spec(
    computed: Seq<AttributeView>,
    passthrough: Seq<AttributeView>,
) -> Seq<AttributeView>
    decreases passthrough.len(),
{
    if passthrough.len() == 0 {
        computed
    } else {
        put_spec(merge_spec(computed, passthrough.drop_last()), passthrough.last())
    }
}

/// What a name holds after the attributes of `passthrough` were set, one
/// after the other, on a list in which it held `start`.
pub open spec fn settled(
    start: Option<AttrValueView>,
    passthrough: Seq<AttributeView>,
    name: Seq<char>,
) -> Option<AttrValueView>
    decreases passthrough.len(),
{
    if passthrough.len() == 0 {
        start
    } else {
        let before = settled(start, passthrough.drop_last(), name);
        let given = passthrough.last();
        if given.name == name {
            Some(
                match before {
                    Some(current) => overlay(name, current, given.value),
                    None => given.value,
                },
            )
        } else {
            before
        }
    }
}

/// The texts that the list gives for `class`, in order.
pub open spec fn class_texts(attrs: Seq<AttributeView>) -> Seq<Seq<char>>
    decreases attrs.len(),
{
    if attrs.len() == 0 {
        Seq::empty()
    } else {
        let front = class_texts(attrs.drop_last());
        match attrs.last().value {
            AttrValueView::Text(p) if attrs.last().name == "class"@ => front.push(p),
            _ => front,
        }
    }
}

/// Whether `name` is `class`.
pub fn is_class(name: &String) -> (out: bool)
    ensures
        out == (name@ == "class"@),
{
    let class = String::from_str("class");
    *name == class
}

/// Looks a name up: the place of the first attribute that has it.
pub fn find(attrs: &Vec<Attribute>, name: &String) -> (out: Option<usize>)
    ensures
        match out {
            Some(i) => is_first(attrs_view(attrs@), name@, i as int),
            None => !has_name(attrs_view(attrs@), name@),
        },
{
    let mut i: usize = 0;
    while i < attrs.len()
        invariant
            i <= attrs.len(),
            forall|j: int| 0 <= j < i ==> (#[trigger] attrs_view(attrs@)[j]).name != name@,
        decreases attrs.len() - i,
    {
        if attrs[i].name == *name {
            return Some(i);
        }
        i += 1;
    }
    None
}

/// There is one first place at most.
pub proof fn lemma_first_is_unique(attrs: Seq<AttributeView>, name: Seq<char>, i: int)
    requires
        is_first(attrs, name, i),
    ensures
        has_name(attrs, name),
        first_index(attrs, name) == i,
{
    let k = first_index(attrs, name);
    assert(is_first(attrs, name, k));
    if k < i {
        assert(attrs[k].name != name);
    }
    if i < k {
        assert(attrs[i].name != name);
    }
}

/// Below any place that holds a name there is a first place that holds it.
pub proof fn lemma_first_exists(attrs: Seq<AttributeView>, name: Seq<char>, at: int)
    requires
        0 <= at < attrs.len(),
        attrs[at].name == name,
    ensures
        is_first(attrs, name, first_index(attrs, name)),
        first_index(attrs, name) <= at,
    decreases at,
{
    if exists|j: int| 0 <= j < at && (#[trigger] attrs[j]).name == name {
        let j = choose|j: int| 0 <= j < at && (#[trigger] attrs[j]).name == name;
        lemma_first_exists(attrs, name, j);
    } else {
        assert(is_first(attrs, name, at));
        lemma_first_is_unique(attrs, name, at);
    }
}

/// What one `put` does to the value of every name: the name that is set
/// takes the new value, laid over the one that was there; every other name
/// keeps its own. Nothing else changes: the attributes that were there keep
/// their places and names.
pub proof fn lemma_put_value(attrs: Seq<AttributeView>, given: AttributeView, name: Seq<char>)
    ensures
        value_of(put_spec(attrs, given), name) == if name == given.name {
            Some(
                match value_of(attrs, name) {
                    Some(current) => overlay(name, current, given.value),
                    None => given.value,
                },
            )
        } else {
            value_of(attrs, name)
        },
        put_spec(attrs, given).len() >= attrs.len(),
        forall|i: int|
            0 <= i < attrs.len() ==> (#[trigger] put_spec(attrs, given)[i]).name == attrs[i].name,
        distinct_names(attrs) ==> distinct_names(put_spec(attrs, given)),
{
    let after = put_spec(attrs, given);
    if has_name(attrs, given.name) {
        let w = choose|i: int| 0 <= i < attrs.len() && (#[trigger] attrs[i]).name == given.name;
        lemma_first_exists(attrs, given.name, w);
        let at = first_index(attrs, given.name);
        assert(forall|i: int| 0 <= i < attrs.len() ==> (#[trigger] after[i]).name == attrs[i].name);
        if has_name(attrs, name) {
            let v = choose|i: int| 0 <= i < attrs.len() && (#[trigger] attrs[i]).name == name;
            lemma_first_exists(attrs, name, v);
            let k = first_index(attrs, name);
            assert(after[k].name == name);
            assert forall|j: int| 0 <= j < k implies (#[trigger] after[j]).name != name by {
                assert(attrs[j].name != name);
            }
            lemma_first_is_unique(after, name, k);
        } else {
            assert forall|i: int| 0 <= i < after.len() implies (#[trigger] after[i]).name
                != name by {
                assert(attrs[i].name != name);
            }
        }
        assert forall|i: int, j: int|
            distinct_names(attrs) && 0 <= i < j < after.len() implies (#[trigger] after[i]).name
            != (#[trigger] after[j]).name by {
            assert(attrs[i].name != attrs[j].name);
        }
    } else {
        let n = attrs.len() as int;
        assert(after[n] == given);
        assert(forall|i: int| 0 <= i < attrs.len() ==> (#[trigger] after[i]) == attrs[i]);
        if name == given.name {
            assert forall|j: int| 0 <= j < n implies (#[trigger] after[j]).name != name by {
                assert(attrs[j].name != name);
            }
            lemma_first_is_unique(after, name, n);
        } else if has_name(attrs, name) {
            let v = choose|i: int| 0 <= i < attrs.len() && (#[trigger] attrs[i]).name == name;
            lemma_first_exists(attrs, name, v);
            let k = first_index(attrs, name);
            assert(after[k].name == name);
            assert forall|j: int| 0 <= j < k implies (#[trigger] after[j]).name != name by {
                assert(attrs[j].name != name);
            }
            lemma_first_is_unique(after, name, k);
        } else {
            assert forall|i: int| 0 <= i < after.len() implies (#[trigger] after[i]).name
                != name by {
                if i < n {
                    assert(attrs[i].name != name);
                }
            }
        }
        assert forall|i: int, j: int|
            distinct_names(attrs) && 0 <= i < j < after.len() implies (#[trigger] after[i]).name
            != (#[trigger] after[j]).name by {
            if j < n {
                assert(attrs[i].name != attrs[j].name);
            } else {
                assert(attrs[i].name != given.name);
            }
        }
    }
}

/// Sets one attribute on the list.
pub fn put(attrs: &mut Vec<Attribute>, given: Attribute)
    ensures
        attrs_view(final(attrs)@) == put_spec(attrs_view(old(attrs)@), given@),
{
    let ghost before = attrs_view(attrs@);
    match find(attrs, &given.name) {
        None => {
            attrs.push(given);
            assert(attrs_view(attrs@) =~= before.push(given@));
        },
        Some(i) => {
            proof {
                lemma_first_is_unique(before, given@.name, i as int);
            }
            let class = is_class(&given.name);
            let Attribute { name, value: given_value } = given;
            let value = if class {
                match &attrs[i].value {
                    AttrValue::Text(current) => match given_value {
                        AttrValue::Text(part) => {
                            let mut joined = current.clone();
                            push_fragment(&mut joined, part.as_str());
                            AttrValue::Text(joined)
                        },
                        _ => AttrValue::Text(current.clone()),
                    },
                    _ => given_value,
                }
            } else {
                given_value
            };
            let laid = Attribute { name, value };
            assert(laid@ == AttributeView {
                name: given@.name,
                value: overlay(given@.name, before[i as int].value, given@.value),
            });
            attrs.set(i, laid);
            assert(attrs_view(attrs@) =~= before.update(i as int, laid@));
        },
    }
}

/// Merges the attributes that a caller passes through onto those that a
/// component computed. Each passthrough attribute is set in turn: a new name
/// is added at the end, a name that is there takes the passthrough value in
/// place, and a text passed for `class` is joined to the computed class
/// string with a single space.
pub fn merge(computed: Vec<Attribute>, passthrough: &Vec<Attribute>) -> (out: Vec<Attribute>)
    ensures
        attrs_view(out@) == merge_spec(attrs_view(computed@), attrs_view(passthrough@)),
{
    let mut out = computed;
    let mut i: usize = 0;
    while i < passthrough.len()
        invariant
            i <= passthrough.len(),
            attrs_view(out@) == merge_spec(
                attrs_view(computed@),
                attrs_view(passthrough@).take(i as int),
            ),
        decreases passthrough.len() - i,
    {
        proof {
            let upto = attrs_view(passthrough@).take(i + 1);
            assert(upto.drop_last() =~= attrs_view(passthrough@).take(i as int));
            assert(upto.last() == passthrough@[i as int]@);
        }
        put(&mut out, passthrough[i].clone());
        i += 1;
    }
    proof {
        assert(attrs_view(passthrough@).take(i as int) =~= attrs_view(passthrough@));
    }
    out
}

/// The merge, name by name: every name holds in the merged list what the
/// passthrough attributes, set in their order, make of what it held in the
/// computed list. The computed attributes keep their places, and a list
/// without a repeated name stays one.
pub proof fn lemma_merge_value(
    computed: Seq<AttributeView>,
    passthrough: Seq<AttributeView>,
    name: Seq<char>,
)
    ensures
        value_of(merge_spec(computed, passthrough), name) == settled(
            value_of(computed, name),
            passthrough,
            name,
        ),
        merge_spec(computed, passthrough).len() >= computed.len(),
        forall|i: int|
            0 <= i < computed.len() ==> (#[trigger] merge_spec(computed, passthrough)[i]).name
                == computed[i].name,
        distinct_names(computed) ==> distinct_names(merge_spec(computed, passthrough)),
    decreases passthrough.len(),
{
    if passthrough.len() > 0 {
        let before = merge_spec(computed, passthrough.drop_last());
        lemma_merge_value(computed, passthrough.drop_last(), name);
        lemma_put_value(before, passthrough.last(), name);
        let after = merge_spec(computed, passthrough);
        assert forall|i: int| 0 <= i < computed.len() implies (#[trigger] after[i]).name
            == computed[i].name by {
            assert(before[i].name == computed[i].name);
        }
    }
}

/// A name holds something after the passthrough attributes were set exactly
/// when it held something before or one of them has it.
pub proof fn lemma_settled_is_some(
    start: Option<AttrValueView>,
    passthrough: Seq<AttributeView>,
    name: Seq<char>,
)
    ensures
        settled(start, passthrough, name).is_some() <==> (start.is_some() || has_name(
            passthrough,
            name,
        )),
    decreases passthrough.len(),
{
    if passthrough.len() > 0 {
        let front = passthrough.drop_last();
        lemma_settled_is_some(start, front, name);
        if has_name(front, name) {
            let i = choose|i: int| 0 <= i < front.len() && (#[trigger] front[i]).name == name;
            assert(passthrough[i].name == name);
        }
        if has_name(passthrough, name) && passthrough.last().name != name {
            let i = choose|i: int|
                0 <= i < passthrough.len() && (#[trigger] passthrough[i]).name == name;
            assert(front[i].name == name);
        }
        if passthrough.last().name == name {
            assert(passthrough[passthrough.len() - 1].name == name);
        }
    }
}

/// No attribute is dropped and none is made up: the merged list has a name
/// exactly when the computed list or the passthrough list has it.
pub proof fn lemma_merge_names(
    computed: Seq<AttributeView>,
    passthrough: Seq<AttributeView>,
    name: Seq<char>,
)
    ensures
        has_name(merge_spec(computed, passthrough), name) <==> (has_name(computed, name)
            || has_name(passthrough, name)),
{
    lemma_merge_value(computed, passthrough, name);
    lemma_settled_is_some(value_of(computed, name), passthrough, name);
}

/// A name that no passthrough attribute has keeps its computed value.
pub proof fn lemma_merge_untouched(
    computed: Seq<AttributeView>,
    passthrough: Seq<AttributeView>,
    name: Seq<char>,
)
    requires
        !has_name(passthrough, name),
    ensures
        value_of(merge_spec(computed, passthrough), name) == value_of(computed, name),
{
    lemma_merge_value(computed, passthrough, name);
    lemma_settled_untouched(value_of(computed, name), passthrough, name);
}

/// Attributes with other names leave what a name holds as it is.
pub proof fn lemma_settled_untouched(
    start: Option<AttrValueView>,
    passthrough: Seq<AttributeView>,
    name: Seq<char>,
)
    requires
        !has_name(passthrough, name),
    ensures
        settled(start, passthrough, name) == start,
    decreases passthrough.len(),
{
    if passthrough.len() > 0 {
        let front = passthrough.drop_last();
        assert(passthrough[passthrough.len() - 1].name != name);
        assert forall|i: int| 0 <= i < front.len() implies (#[trigger] front[i]).name != name by {
            assert(passthrough[i].name != name);
        }
        lemma_settled_untouched(start, front, name);
    }
}

/// The last write wins: a name other than `class` holds the value of the
/// last passthrough attribute that has it, whatever was computed for it.
pub proof fn lemma_merge_last_wins(
    computed: Seq<AttributeView>,
    passthrough: Seq<AttributeView>,
    at: int,
)
    requires
        0 <= at < passthrough.len(),
        passthrough[at].name != "class"@,
        forall|j: int|
            at < j < passthrough.len() ==> (#[trigger] passthrough[j]).name
                != passthrough[at].name,
    ensures
        value_of(merge_spec(computed, passthrough), passthrough[at].name) == Some(
            passthrough[at].value,
        ),
    decreases passthrough.len(),
{
    let name = passthrough[at].name;
    lemma_merge_value(computed, passthrough, name);
    let front = passthrough.drop_last();
    if at < passthrough.len() - 1 {
        assert(passthrough[passthrough.len() - 1].name != name);
        assert(front[at] == passthrough[at]);
        assert forall|j: int| at < j < front.len() implies (#[trigger] front[j]).name
            != front[at].name by {
            assert(passthrough[j].name != name);
        }
        lemma_merge_last_wins(computed, front, at);
        lemma_merge_value(computed, front, name);
    }
}

/// The computed class string is never replaced: after the merge `class`
/// holds the computed class string composed with the class texts that were
/// passed through, in their order.
pub proof fn lemma_merge_class(
    computed: Seq<AttributeView>,
    passthrough: Seq<AttributeView>,
    class: Seq<char>,
)
    requires
        value_of(computed, "class"@) == Some(AttrValueView::Text(class)),
    ensures
        value_of(merge_spec(computed, passthrough), "class"@) == Some(
            AttrValueView::Text(compose_spec(class, class_texts(passthrough))),
        ),
{
    lemma_merge_value(computed, passthrough, "class"@);
    lemma_settled_class(class, passthrough);
}

/// Setting attributes on a class string composes the class texts among them
/// onto it.
pub proof fn lemma_settled_class(class: Seq<char>, passthrough: Seq<AttributeView>)
    ensures
        settled(Some(AttrValueView::Text(class)), passthrough, "class"@) == Some(
            AttrValueView::Text(compose_spec(class, class_texts(passthrough))),
        ),
    decreases passthrough.len(),
{
    if passthrough.len() > 0 {
        let front = passthrough.drop_last();
        lemma_settled_class(class, front);
        let texts = class_texts(front);
        match passthrough.last().value {
            AttrValueView::Text(p) if passthrough.last().name == "class"@ => {
                assert(texts.push(p).drop_last() =~= texts);
            },
            _ => {},
        }
    }
}

/// A class text of the list is one of its class texts.
pub proof fn lemma_class_text_listed(attrs: Seq<AttributeView>, at: int) -> (k: int)
    requires
        0 <= at < attrs.len(),
        attrs[at].name == "class"@,
        attrs[at].value is Text,
    ensures
        0 <= k < class_texts(attrs).len(),
        AttrValueView::Text(class_texts(attrs)[k]) == attrs[at].value,
    decreases attrs.len(),
{
    let front = attrs.drop_last();
    if at == attrs.len() - 1 {
        class_texts(front).len() as int
    } else {
        assert(front[at] == attrs[at]);
        let k = lemma_class_text_listed(front, at);
        k
    }
}

/// A class passed through is joined to the computed class, and neither is
/// lost: the merged class string starts with the computed one, and the text
/// passed through occurs in it.
pub proof fn lemma_merge_class_keeps_both(
    computed: Seq<AttributeView>,
    passthrough: Seq<AttributeView>,
    class: Seq<char>,
    at: int,
    passed: Seq<char>,
)
    requires
        value_of(computed, "class"@) == Some(AttrValueView::Text(class)),
        0 <= at < passthrough.len(),
        passthrough[at] == text_attr("class"@, passed),
    ensures
        value_of(merge_spec(computed, passthrough), "class"@) matches Some(
            AttrValueView::Text(merged),
        ) && class.is_prefix_of(merged) && occurs_in(passed, merged),
{
    lemma_merge_class(computed, passthrough, class);
    let k = lemma_class_text_listed(passthrough, at);
    lemma_compose_keeps_all(class, class_texts(passthrough));
}

/// Every class text of the list is the text of one of its attributes.
pub proof fn lemma_class_text_source(attrs: Seq<AttributeView>, k: int) -> (at: int)
    requires
        0 <= k < class_texts(attrs).len(),
    ensures
        0 <= at < attrs.len(),
        attrs[at] == text_attr("class"@, class_texts(attrs)[k]),
    decreases attrs.len(),
{
    let front = attrs.drop_last();
    if k < class_texts(front).len() {
        let at = lemma_class_text_source(front, k);
        assert(front[at] == attrs[at]);
        at
    } else {
        attrs.len() - 1
    }
}

/// A tidy computed class and tidy class texts passed through merge into a
/// tidy class string: no space at either end, and none doubled.
pub proof fn lemma_merge_class_tidy(
    computed: Seq<AttributeView>,
    passthrough: Seq<AttributeView>,
    class: Seq<char>,
)
    requires
        value_of(computed, "class"@) == Some(AttrValueView::Text(class)),
        is_tidy(class),
        forall|i: int, passed: Seq<char>|
            0 <= i < passthrough.len() && #[trigger] passthrough[i] == #[trigger] text_attr(
                "class"@,
                passed,
            ) ==> is_tidy(passed),
    ensures
        value_of(merge_spec(computed, passthrough), "class"@) matches Some(
            AttrValueView::Text(merged),
        ) && is_tidy(merged),
{
    lemma_merge_class(computed, passthrough, class);
    let parts = class_texts(passthrough);
    assert forall|k: int| 0 <= k < parts.len() implies is_tidy(#[trigger] parts[k]) by {
        let at = lemma_class_text_source(passthrough, k);
        assert(passthrough[at] == text_attr("class"@, parts[k]));
    }
    lemma_compose_tidy(class, parts);
}

} // verus!
