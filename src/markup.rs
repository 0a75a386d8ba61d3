use vstd::prelude::*;
use vstd::string::*;

verus! {

/// One attribute of an element: a name and the text it carries.
pub struct Attribute {
    pub name: String,
    pub value: String,
}

impl View for Attribute {
    type V = (Seq<char>, Seq<char>);

    open spec fn view(&self) -> (Seq<char>, Seq<char>) {
        (self.name@, self.value@)
    }
}

/// A markup tree as the components build it, before a host framework renders it.
///
/// `A` is the host's handle to a remote action; `E` is content the host supplies
/// and draws itself (an icon glyph, or nested content passed in by a caller).
pub enum Node<A, E> {
    /// An element with its tag, its attributes in order and its children in order.
    Element { tag: String, attrs: Vec<Attribute>, children: Vec<Node<A, E>> },
    /// Text shown to the reader.
    Text { text: String },
    /// An icon glyph, drawn with the given style classes.
    Icon { glyph: E, class: String },
    /// Content supplied by a caller, rendered as it is.
    Embed { content: E },
    /// A form whose submission gathers its named fields and invokes `action`.
    ActionForm { action: A, attrs: Vec<Attribute>, children: Vec<Node<A, E>> },
}

/// The attributes as (name, value) pairs.
pub open spec fn attrs_view(a: Seq<Attribute>) -> Seq<(Seq<char>, Seq<char>)> {
    a.map_values(|x: Attribute| x@)
}

/// The value of the first attribute called `name`, or `None` where there is none.
pub open spec fn attr_value(a: Seq<(Seq<char>, Seq<char>)>, name: Seq<char>) -> Option<Seq<char>>
    decreases a.len(),
{
    if a.len() == 0 {
        None
    } else if a[0].0 == name {
        Some(a[0].1)
    } else {
        attr_value(a.drop_first(), name)
    }
}

/// The pair list of an attribute that may be absent: empty when absent, one pair when present.
pub open spec fn optional_attr(name: Seq<char>, value: Option<Seq<char>>) -> Seq<(Seq<char>, Seq<char>)> {
    match value {
        Some(v) => seq![(name, v)],
        None => Seq::empty(),
    }
}

/// The text of an optional string value, as an optional sequence of characters.
pub open spec fn opt_view(o: Option<String>) -> Option<Seq<char>> {
    match o {
        Some(s) => Some(s@),
        None => None,
    }
}

/// The tag of an element (or of an action form, `"form"`); empty for other nodes.
pub open spec fn tag_of<A, E>(n: Node<A, E>) -> Seq<char> {
    match n {
        Node::Element { tag, .. } => tag@,
        Node::ActionForm { .. } => "form"@,
        _ => Seq::empty(),
    }
}

/// The attributes of an element or action form; empty for other nodes.
pub open spec fn attrs_of<A, E>(n: Node<A, E>) -> Seq<(Seq<char>, Seq<char>)> {
    match n {
        Node::Element { attrs, .. } => attrs_view(attrs@),
        Node::ActionForm { attrs, .. } => attrs_view(attrs@),
        _ => Seq::empty(),
    }
}

/// The children of an element or action form; empty for other nodes.
pub open spec fn kids_of<A, E>(n: Node<A, E>) -> Seq<Node<A, E>> {
    match n {
        Node::Element { children, .. } => children@,
        Node::ActionForm { children, .. } => children@,
        _ => Seq::empty(),
    }
}

/// `n` is an element with this tag, exactly these attributes, and `count` children.
pub open spec fn is_element<A, E>(
    n: Node<A, E>,
    tag: Seq<char>,
    attrs: Seq<(Seq<char>, Seq<char>)>,
    count: nat,
) -> bool {
    &&& n is Element
    &&& tag_of(n) == tag
    &&& attrs_of(n) == attrs
    &&& kids_of(n).len() == count
}

/// `n` is a text node holding exactly `t`.
pub open spec fn is_text<A, E>(n: Node<A, E>, t: Seq<char>) -> bool {
    n matches Node::Text { text } && text@ == t
}

/// Builds an attribute from its name and value.
pub fn attribute(name: &str, value: &str) -> (r: Attribute)
    ensures
        r@ == (name@, value@),
{
    Attribute { name: name.to_string(), value: value.to_string() }
}

/// Appends an attribute when it has a value; an absent value adds nothing,
/// so the attribute is omitted rather than rendered empty.
pub fn push_optional_attr(attrs: &mut Vec<Attribute>, name: &str, value: Option<String>)
    ensures
        attrs_view(final(attrs)@) == attrs_view(old(attrs)@) + optional_attr(name@, opt_view(value)),
{
    match value {
        Some(v) => {
            attrs.push(Attribute { name: name.to_string(), value: v });
            assert(attrs_view(attrs@) =~= attrs_view(old(attrs)@) + optional_attr(name@, opt_view(value)));
        },
        None => {
            assert(attrs_view(attrs@) =~= attrs_view(old(attrs)@) + optional_attr(name@, opt_view(value)));
        },
    }
}

/// Builds a text node.
pub fn text<A, E>(t: &str) -> (r: Node<A, E>)
    ensures
        is_text(r, t@),
{
    Node::Text { text: t.to_string() }
}

/// Builds an element from a tag, its attributes and its children.
pub fn element<A, E>(tag: &str, attrs: Vec<Attribute>, children: Vec<Node<A, E>>) -> (r: Node<A, E>)
    ensures
        is_element(r, tag@, attrs_view(attrs@), children@.len()),
        kids_of(r) == children@,
{
    Node::Element { tag: tag.to_string(), attrs, children }
}

/// Builds an element with one attribute, `class`.
pub fn classed<A, E>(tag: &str, class: &str, children: Vec<Node<A, E>>) -> (r: Node<A, E>)
    ensures
        is_element(r, tag@, seq![("class"@, class@)], children@.len()),
        kids_of(r) == children@,
{
    let mut attrs: Vec<Attribute> = Vec::new();
    attrs.push(attribute("class", class));
    assert(attrs_view(attrs@) =~= seq![("class"@, class@)]);
    element(tag, attrs, children)
}

} // verus!
