#![allow(non_snake_case)]

use vstd::prelude::*;
use vstd::string::StringExecFns;
use crate::markup::{
    attr_value, attribute, attrs_of, attrs_view, classed, element, is_element, is_text, kids_of,
    opt_view, optional_attr, push_optional_attr, text, Attribute, Node,
};

verus! {

/// The shape of a labelled text field: a wrapper holding a label, which holds the
/// caption and the input control. The control carries `id` and `name` equal to
/// the field's name, and its `value` and `maxlength` only where they are given.
pub open spec fn form_input_shape<A, E>(
    n: Node<A, E>,
    input_type: Seq<char>,
    name: Seq<char>,
    label: Seq<char>,
    placeholder: Seq<char>,
    default_value: Option<Seq<char>>,
    maxlength: Option<Seq<char>>,
) -> bool {
    let lab = kids_of(n)[0];
    let caption = kids_of(lab)[0];
    let span = kids_of(caption)[0];
    &&& is_element(n, "div"@, seq![], 1)
    &&& is_element(lab, "label"@, seq![("class"@, "form-control"@)], 2)
    &&& is_element(caption, "div"@, seq![("class"@, "label"@)], 1)
    &&& is_element(span, "span"@, seq![("class"@, "label-text text-lg font-bold"@)], 1)
    &&& is_text(kids_of(span)[0], label)
    &&& is_element(
        form_input_control(n),
        "input"@,
        seq![("type"@, input_type), ("id"@, name), ("name"@, name), ("placeholder"@, placeholder)]
            + optional_attr("value"@, default_value) + optional_attr("maxlength"@, maxlength)
            + seq![("class"@, "input input-accent w-full text-lg"@)],
        0,
    )
}

/// The input control inside a labelled text field.
pub open spec fn form_input_control<A, E>(n: Node<A, E>) -> Node<A, E> {
    kids_of(kids_of(n)[0])[1]
}

/// A labelled text field. The label wraps the control, and the control's `id` and
/// `name` are both `name`. An absent `default_value` or `maxlength` leaves the
/// attribute out; a present one is carried exactly.
///
/// Field names are expected to be unique within one form, since submitted values
/// are gathered by name; this is not checked here.
pub fn FormInput<A, E>(
    input_type: &str,
    name: &str,
    label: &str,
    placeholder: &str,
    default_value: Option<String>,
    maxlength: Option<String>,
) -> (r: Node<A, E>)
    ensures
        form_input_shape(r, input_type@, name@, label@, placeholder@, opt_view(default_value), opt_view(maxlength)),
        attr_value(attrs_of(form_input_control(r)), "value"@) == opt_view(default_value),
        attr_value(attrs_of(form_input_control(r)), "maxlength"@) == opt_view(maxlength),
        attr_value(attrs_of(form_input_control(r)), "id"@) == Some(name@),
        attr_value(attrs_of(form_input_control(r)), "name"@) == Some(name@),
{
    let ghost dv = opt_view(default_value);
    let ghost ml = opt_view(maxlength);
    let mut attrs: Vec<Attribute> = Vec::new();
    attrs.push(attribute("type", input_type));
    attrs.push(attribute("id", name));
    attrs.push(attribute("name", name));
    attrs.push(attribute("placeholder", placeholder));
    assert(attrs_view(attrs@) =~= seq![
        ("type"@, input_type@),
        ("id"@, name@),
        ("name"@, name@),
        ("placeholder"@, placeholder@),
    ]);
    push_optional_attr(&mut attrs, "value", default_value);
    push_optional_attr(&mut attrs, "maxlength", maxlength);
    let ghost before_class = attrs@;
    attrs.push(attribute("class", "input input-accent w-full text-lg"));
    let ghost av = attrs_view(attrs@);
    assert(av =~= attrs_view(before_class) + seq![("class"@, "input input-accent w-full text-lg"@)]);
    proof {
        lemma_input_attrs(input_type@, name@, placeholder@, dv, ml);
    }
    let input = element("input", attrs, Vec::new());

    let span = classed("span", "label-text text-lg font-bold", vec![text(label)]);
    let caption = classed("div", "label", vec![span]);
    let lab = classed("label", "form-control", vec![caption, input]);
    let r = element("div", Vec::new(), vec![lab]);
    assert(attrs_view(Seq::<Attribute>::empty()) =~= seq![]);
    r
}

/// The shape of a form title: a heading holding exactly the given text.
pub open spec fn form_title_shape<A, E>(n: Node<A, E>, text: Seq<char>) -> bool {
    &&& is_element(n, "h1"@, seq![("class"@, "text-primary text-2xl font-bold"@)], 1)
    &&& is_text(kids_of(n)[0], text)
}

/// The shape of a submit control: a submit button holding exactly the given text.
pub open spec fn form_submit_shape<A, E>(n: Node<A, E>, msg: Seq<char>) -> bool {
    &&& is_element(
        n,
        "button"@,
        seq![("type"@, "submit"@), ("class"@, "btn btn-primary btn-wide text-lg"@)],
        1,
    )
    &&& is_text(kids_of(n)[0], msg)
}

/// The shape of a checkbox field: a label holding a checkbox named `id`, then the caption.
pub open spec fn form_checkbox_shape<A, E>(n: Node<A, E>, label: Seq<char>, id: Seq<char>) -> bool {
    let lab = kids_of(n)[0];
    let span = kids_of(lab)[1];
    &&& is_element(n, "div"@, seq![], 1)
    &&& is_element(lab, "label"@, seq![("class"@, "flex items-center"@)], 2)
    &&& is_element(
        kids_of(lab)[0],
        "input"@,
        seq![("type"@, "checkbox"@), ("name"@, id), ("class"@, "checkbox checkbox-accent"@)],
        0,
    )
    &&& is_element(span, "span"@, seq![("class"@, "text-lg font-bold ml-2"@)], 1)
    &&& is_text(kids_of(span)[0], label)
}

/// The shape of an icon-only submit button: its one child is the icon, and it holds no text.
pub open spec fn icon_button_shape<A, E>(n: Node<A, E>, icon: E, class: Seq<char>) -> bool {
    &&& is_element(n, "button"@, seq![("type"@, "submit"@), ("class"@, "btn btn-square "@ + class)], 1)
    &&& kids_of(n)[0] matches Node::Icon { glyph, class: c }
    &&& glyph == icon
    &&& c@ == "text-2xl"@
}

/// A checkbox field whose submitted value is gathered under `id`.
pub fn FormCheckbox<A, E>(label: &str, id: &str) -> (r: Node<A, E>)
    ensures
        form_checkbox_shape(r, label@, id@),
{
    let mut attrs: Vec<Attribute> = Vec::new();
    attrs.push(attribute("type", "checkbox"));
    attrs.push(attribute("name", id));
    attrs.push(attribute("class", "checkbox checkbox-accent"));
    assert(attrs_view(attrs@) =~= seq![
        ("type"@, "checkbox"@),
        ("name"@, id@),
        ("class"@, "checkbox checkbox-accent"@),
    ]);
    let input = element("input", attrs, Vec::new());
    let span = classed("span", "text-lg font-bold ml-2", vec![text(label)]);
    let lab = classed("label", "flex items-center", vec![input, span]);
    let r = element("div", Vec::new(), vec![lab]);
    assert(attrs_view(Seq::<Attribute>::empty()) =~= seq![]);
    r
}

/// A full-width submit button labelled `msg`.
pub fn FormSubmit<A, E>(msg: &str) -> (r: Node<A, E>)
    ensures
        form_submit_shape(r, msg@),
{
    let mut attrs: Vec<Attribute> = Vec::new();
    attrs.push(attribute("type", "submit"));
    attrs.push(attribute("class", "btn btn-primary btn-wide text-lg"));
    assert(attrs_view(attrs@) =~= seq![
        ("type"@, "submit"@),
        ("class"@, "btn btn-primary btn-wide text-lg"@),
    ]);
    element("button", attrs, vec![text(msg)])
}

/// The heading of a form, showing `text`.
pub fn FormTitle<A, E>(text: &str) -> (r: Node<A, E>)
    ensures
        form_title_shape(r, text@),
{
    classed("h1", "text-primary text-2xl font-bold", vec![crate::markup::text(text)])
}

/// A titled form bound to `action`: the title, then the caller's fields in the order
/// given, then the submit control. The fields are kept as they are; fields that
/// share a name are the caller's mistake and are not merged or dropped.
pub fn Form<A, E>(action: A, title: &str, submit: &str, children: Vec<Node<A, E>>) -> (r: Node<A, E>)
    ensures
        r matches Node::ActionForm { action: a, .. } && a == action,
        attrs_of(r) == seq![("class"@, "w-full flex flex-col items-center"@)],
        kids_of(r).len() == 3,
        form_title_shape(kids_of(r)[0], title@),
        is_element(kids_of(r)[1], "div"@, seq![("class"@, "w-full flex flex-col mt-4 gap-4 mb-6"@)], children@.len()),
        kids_of(kids_of(r)[1]) == children@,
        form_submit_shape(kids_of(r)[2], submit@),
{
    let head = FormTitle(title);
    let fields = classed("div", "w-full flex flex-col mt-4 gap-4 mb-6", children);
    let foot = FormSubmit(submit);
    let mut attrs: Vec<Attribute> = Vec::new();
    attrs.push(attribute("class", "w-full flex flex-col items-center"));
    assert(attrs_view(attrs@) =~= seq![("class"@, "w-full flex flex-col items-center"@)]);
    Node::ActionForm { action, attrs, children: vec![head, fields, foot] }
}

/// An icon-only submit button bound to `action`, after the caller's content
/// (typically hidden fields that identify what the action applies to).
pub fn ActionIcon<A, E>(action: A, icon: E, class: &str, children: Vec<Node<A, E>>) -> (r: Node<A, E>)
    ensures
        r matches Node::ActionForm { action: a, .. } && a == action,
        attrs_of(r) == Seq::<(Seq<char>, Seq<char>)>::empty(),
        kids_of(r).len() == children@.len() + 1,
        kids_of(r).take(children@.len() as int) == children@,
        icon_button_shape(kids_of(r).last(), icon, class@),
{
    let mut classes = "btn btn-square ".to_string();
    classes.append(class);
    let mut attrs: Vec<Attribute> = Vec::new();
    attrs.push(attribute("type", "submit"));
    attrs.push(attribute("class", classes.as_str()));
    assert(attrs_view(attrs@) =~= seq![("type"@, "submit"@), ("class"@, "btn btn-square "@ + class@)]);
    let glyph = Node::Icon { glyph: icon, class: "text-2xl".to_string() };
    let button = element("button", attrs, vec![glyph]);
    let mut kids = children;
    kids.push(button);
    assert(kids@.take(children@.len() as int) =~= children@);
    let r = Node::ActionForm { action, attrs: Vec::new(), children: kids };
    assert(attrs_view(Seq::<Attribute>::empty()) =~= Seq::<(Seq<char>, Seq<char>)>::empty());
    r
}

/// A card centred in the available space, holding the caller's content.
pub fn CenteredCard<A, E>(children: Vec<Node<A, E>>) -> (r: Node<A, E>)
    ensures
        is_element(r, "div"@, seq![("class"@, "size-full flex flex-col justify-center items-center"@)], 1),
        is_element(
            kids_of(r)[0],
            "div"@,
            seq![(
                "class"@,
                "w-full max-w-xl pt-6 pb-8 px-20 bg-base-100 rounded-xl border border-neutral shadow-lg"@,
            )],
            children@.len(),
        ),
        kids_of(kids_of(r)[0]) == children@,
{
    let card = classed(
        "div",
        "w-full max-w-xl pt-6 pb-8 px-20 bg-base-100 rounded-xl border border-neutral shadow-lg",
        children,
    );
    classed("div", "size-full flex flex-col justify-center items-center", vec![card])
}

/// A page-width container holding the caller's content.
pub fn Container<A, E>(children: Vec<Node<A, E>>) -> (r: Node<A, E>)
    ensures
        is_element(r, "div"@, seq![("class"@, "container mx-auto pt-6"@)], children@.len()),
        kids_of(r) == children@,
{
    classed("div", "container mx-auto pt-6", children)
}

/// Looking up the named attributes of an input control finds the values it was built with.
proof fn lemma_input_attrs(
    input_type: Seq<char>,
    name: Seq<char>,
    placeholder: Seq<char>,
    dv: Option<Seq<char>>,
    ml: Option<Seq<char>>,
)
    ensures
        ({
            let a = seq![("type"@, input_type), ("id"@, name), ("name"@, name), ("placeholder"@, placeholder)]
                + optional_attr("value"@, dv) + optional_attr("maxlength"@, ml)
                + seq![("class"@, "input input-accent w-full text-lg"@)];
            &&& attr_value(a, "value"@) == dv
            &&& attr_value(a, "maxlength"@) == ml
            &&& attr_value(a, "id"@) == Some(name)
            &&& attr_value(a, "name"@) == Some(name)
        }),
{
    reveal_strlit("type");
    reveal_strlit("id");
    reveal_strlit("name");
    reveal_strlit("placeholder");
    reveal_strlit("value");
    reveal_strlit("maxlength");
    reveal_strlit("class");
    reveal_strlit("input input-accent w-full text-lg");
    assert("type"@.len() == 4 && "id"@.len() == 2 && "name"@.len() == 4);
    assert("placeholder"@.len() == 11 && "maxlength"@.len() == 9);
    assert("value"@[0] == 'v' && "class"@[0] == 'c' && "type"@[0] == 't' && "name"@[0] == 'n');
    assert("value"@ != "class"@ && "maxlength"@ != "class"@);
    assert("value"@ != "type"@ && "value"@ != "id"@ && "value"@ != "name"@ && "value"@ != "placeholder"@);
    assert("maxlength"@ != "type"@ && "maxlength"@ != "id"@ && "maxlength"@ != "name"@);
    assert("maxlength"@ != "placeholder"@ && "maxlength"@ != "value"@);
    assert("name"@ != "type"@ && "name"@ != "id"@ && "id"@ != "type"@);
    let a = seq![("type"@, input_type), ("id"@, name), ("name"@, name), ("placeholder"@, placeholder)]
        + optional_attr("value"@, dv) + optional_attr("maxlength"@, ml)
        + seq![("class"@, "input input-accent w-full text-lg"@)];
    let t1 = a.drop_first();
    let t2 = t1.drop_first();
    let t3 = t2.drop_first();
    let t4 = t3.drop_first();
    assert(t4 =~= optional_attr("value"@, dv) + optional_attr("maxlength"@, ml)
        + seq![("class"@, "input input-accent w-full text-lg"@)]);
    let t5 = optional_attr("maxlength"@, ml) + seq![("class"@, "input input-accent w-full text-lg"@)];
    let t6 = seq![("class"@, "input input-accent w-full text-lg"@)];
    let none = Seq::<(Seq<char>, Seq<char>)>::empty();
    assert(attr_value(none, "value"@) == None::<Seq<char>>);
    assert(attr_value(none, "maxlength"@) == None::<Seq<char>>);
    assert(t6.drop_first() =~= none);
    assert(attr_value(t6, "value"@) == None::<Seq<char>>);
    assert(attr_value(t6, "maxlength"@) == None::<Seq<char>>);
    if ml is Some {
        assert(t5.drop_first() =~= t6);
    } else {
        assert(t5 =~= t6);
    }
    assert(attr_value(t5, "value"@) == None::<Seq<char>>);
    assert(attr_value(t5, "maxlength"@) == ml);
    if dv is Some {
        assert(t4.drop_first() =~= t5);
    } else {
        assert(t4 =~= t5);
    }
    assert(attr_value(t4, "value"@) == dv);
    assert(attr_value(t4, "maxlength"@) == ml);
    assert(t3.drop_first() =~= t4);
    assert(attr_value(t3, "value"@) == dv);
    assert(attr_value(t3, "maxlength"@) == ml);
    assert(t2.drop_first() =~= t3);
    assert(attr_value(t2, "value"@) == dv);
    assert(attr_value(t2, "maxlength"@) == ml);
    assert(attr_value(t2, "name"@) == Some(name));
    assert(t1.drop_first() =~= t2);
    assert(attr_value(t1, "value"@) == dv);
    assert(attr_value(t1, "maxlength"@) == ml);
    assert(attr_value(t1, "id"@) == Some(name));
    assert(attr_value(t1, "name"@) == Some(name));
}

} // verus!
