use form_kit::markup::{Attribute, Node};
use form_kit::ui::{
    ActionIcon, CenteredCard, Container, Form, FormCheckbox, FormInput, FormSubmit, FormTitle,
};

type N = Node<u32, &'static str>;

fn attr<'a>(attrs: &'a [Attribute], name: &str) -> Option<&'a str> {
    attrs.iter().find(|a| a.name == name).map(|a| a.value.as_str())
}

fn parts(n: &N) -> (&str, &[Attribute], &[N]) {
    match n {
        Node::Element { tag, attrs, children } => (tag.as_str(), attrs.as_slice(), children.as_slice()),
        Node::ActionForm { attrs, children, .. } => ("form", attrs.as_slice(), children.as_slice()),
        _ => panic!("not an element"),
    }
}

fn text_of(n: &N) -> &str {
    match n {
        Node::Text { text } => text.as_str(),
        _ => panic!("not text"),
    }
}

fn count_text(n: &N) -> usize {
    match n {
        Node::Text { .. } => 1,
        Node::Element { children, .. } | Node::ActionForm { children, .. } => {
            children.iter().map(count_text).sum()
        }
        _ => 0,
    }
}

fn count_submit_buttons(n: &N) -> usize {
    match n {
        Node::Element { tag, attrs, children } => {
            let own = if tag == "button" && attr(attrs, "type") == Some("submit") { 1 } else { 0 };
            own + children.iter().map(count_submit_buttons).sum::<usize>()
        }
        Node::ActionForm { children, .. } => children.iter().map(count_submit_buttons).sum(),
        _ => 0,
    }
}

fn control(n: &N) -> &N {
    let (_, _, kids) = parts(n);
    let (_, _, label_kids) = parts(&kids[0]);
    &label_kids[1]
}

#[test]
fn form_input_without_default_omits_value() {
    let n: N = FormInput("text", "user", "User", "your name", None, None);
    let (tag, attrs, kids) = parts(control(&n));
    assert_eq!(tag, "input");
    assert!(kids.is_empty());
    assert_eq!(attr(attrs, "value"), None);
    assert_eq!(attr(attrs, "maxlength"), None);
    assert_eq!(attrs.len(), 5);
}

#[test]
fn form_input_with_default_carries_value_exactly() {
    let n: N = FormInput(
        "text",
        "user",
        "User",
        "your name",
        Some(" a <b> ".to_string()),
        Some("12".to_string()),
    );
    let (_, attrs, _) = parts(control(&n));
    assert_eq!(attr(attrs, "value"), Some(" a <b> "));
    assert_eq!(attr(attrs, "maxlength"), Some("12"));
    assert_eq!(attrs.len(), 7);
}

#[test]
fn form_input_with_empty_default_keeps_the_attribute() {
    let n: N = FormInput("text", "user", "User", "", Some(String::new()), None);
    let (_, attrs, _) = parts(control(&n));
    assert_eq!(attr(attrs, "value"), Some(""));
    assert_eq!(attr(attrs, "placeholder"), Some(""));
}

#[test]
fn form_input_email_label_and_input_share_identifier() {
    let n: N = FormInput("email", "email", "Email", "you@example.com", None, None);
    let (tag, _, kids) = parts(&n);
    assert_eq!(tag, "div");
    assert_eq!(kids.len(), 1);
    let (label_tag, label_attrs, label_kids) = parts(&kids[0]);
    assert_eq!(label_tag, "label");
    assert_eq!(attr(label_attrs, "class"), Some("form-control"));
    let (_, _, caption_kids) = parts(&label_kids[0]);
    let (span_tag, _, span_kids) = parts(&caption_kids[0]);
    assert_eq!(span_tag, "span");
    assert_eq!(text_of(&span_kids[0]), "Email");
    let (input_tag, attrs, _) = parts(&label_kids[1]);
    assert_eq!(input_tag, "input");
    assert_eq!(attr(attrs, "type"), Some("email"));
    assert_eq!(attr(attrs, "id"), Some("email"));
    assert_eq!(attr(attrs, "name"), Some("email"));
    assert_eq!(attr(attrs, "placeholder"), Some("you@example.com"));
    assert_eq!(attr(attrs, "class"), Some("input input-accent w-full text-lg"));
}

#[test]
fn form_sign_up_orders_title_children_submit() {
    let fields: Vec<N> = vec![
        FormInput("text", "user", "User", "", None, None),
        FormInput("password", "pass", "Password", "", None, None),
        FormCheckbox("Remember me", "remember"),
    ];
    let n: N = Form(7, "Sign up", "Create", fields);
    match &n {
        Node::ActionForm { action, .. } => assert_eq!(*action, 7),
        _ => panic!("not a form"),
    }
    let (tag, attrs, kids) = parts(&n);
    assert_eq!(tag, "form");
    assert_eq!(attr(attrs, "class"), Some("w-full flex flex-col items-center"));
    assert_eq!(kids.len(), 3);
    let (h_tag, _, h_kids) = parts(&kids[0]);
    assert_eq!(h_tag, "h1");
    assert_eq!(h_kids.len(), 1);
    assert_eq!(text_of(&h_kids[0]), "Sign up");
    let (_, _, body) = parts(&kids[1]);
    assert_eq!(body.len(), 3);
    assert_eq!(attr(parts(control(&body[0])).1, "name"), Some("user"));
    assert_eq!(attr(parts(control(&body[1])).1, "name"), Some("pass"));
    let (_, _, check_kids) = parts(&body[2]);
    let (_, _, check_label_kids) = parts(&check_kids[0]);
    assert_eq!(attr(parts(&check_label_kids[0]).1, "name"), Some("remember"));
    let (s_tag, s_attrs, s_kids) = parts(&kids[2]);
    assert_eq!(s_tag, "button");
    assert_eq!(attr(s_attrs, "type"), Some("submit"));
    assert_eq!(text_of(&s_kids[0]), "Create");
    assert_eq!(count_submit_buttons(&n), 1);
    let headings = kids.iter().filter(|k| parts(k).0 == "h1").count();
    assert_eq!(headings, 1);
}

#[test]
fn form_keeps_fields_that_share_a_name() {
    let fields: Vec<N> = vec![
        FormInput("text", "dup", "First", "", None, None),
        FormInput("text", "dup", "Second", "", None, None),
    ];
    let n: N = Form(1, "T", "S", fields);
    let (_, _, kids) = parts(&n);
    let (_, _, body) = parts(&kids[1]);
    assert_eq!(body.len(), 2);
    assert_eq!(attr(parts(control(&body[0])).1, "name"), Some("dup"));
    assert_eq!(attr(parts(control(&body[1])).1, "name"), Some("dup"));
}

#[test]
fn form_with_no_fields_has_empty_body() {
    let n: N = Form(0, "", "", Vec::new());
    let (_, _, kids) = parts(&n);
    assert_eq!(kids.len(), 3);
    assert!(parts(&kids[1]).2.is_empty());
    assert_eq!(text_of(&parts(&kids[0]).2[0]), "");
}

#[test]
fn action_icon_renders_one_icon_only_submit_button() {
    let hidden: N = FormInput("hidden", "id", "", "", Some("42".to_string()), None);
    let n: N = ActionIcon(3, "trash", "btn-error", vec![hidden]);
    match &n {
        Node::ActionForm { action, .. } => assert_eq!(*action, 3),
        _ => panic!("not a form"),
    }
    let (_, attrs, kids) = parts(&n);
    assert!(attrs.is_empty());
    assert_eq!(kids.len(), 2);
    assert_eq!(attr(parts(control(&kids[0])).1, "value"), Some("42"));
    let (b_tag, b_attrs, b_kids) = parts(&kids[1]);
    assert_eq!(b_tag, "button");
    assert_eq!(attr(b_attrs, "type"), Some("submit"));
    assert_eq!(attr(b_attrs, "class"), Some("btn btn-square btn-error"));
    assert_eq!(b_kids.len(), 1);
    match &b_kids[0] {
        Node::Icon { glyph, class } => {
            assert_eq!(*glyph, "trash");
            assert_eq!(class, "text-2xl");
        }
        _ => panic!("not an icon"),
    }
    assert_eq!(count_text(&kids[1]), 0);
    assert_eq!(count_submit_buttons(&n), 1);
}

#[test]
fn action_icon_with_empty_class() {
    let n: N = ActionIcon(0, "x", "", Vec::new());
    let (_, _, kids) = parts(&n);
    assert_eq!(kids.len(), 1);
    assert_eq!(attr(parts(&kids[0]).1, "class"), Some("btn btn-square "));
}

#[test]
fn form_checkbox_is_named_by_id() {
    let n: N = FormCheckbox("Admin", "is_admin");
    let (_, _, kids) = parts(&n);
    let (l_tag, l_attrs, l_kids) = parts(&kids[0]);
    assert_eq!(l_tag, "label");
    assert_eq!(attr(l_attrs, "class"), Some("flex items-center"));
    let (i_tag, i_attrs, _) = parts(&l_kids[0]);
    assert_eq!(i_tag, "input");
    assert_eq!(attr(i_attrs, "type"), Some("checkbox"));
    assert_eq!(attr(i_attrs, "name"), Some("is_admin"));
    assert_eq!(attr(i_attrs, "id"), None);
    assert_eq!(text_of(&parts(&l_kids[1]).2[0]), "Admin");
}

#[test]
fn form_submit_is_a_wide_submit_button() {
    let n: N = FormSubmit("Save");
    let (tag, attrs, kids) = parts(&n);
    assert_eq!(tag, "button");
    assert_eq!(attr(attrs, "type"), Some("submit"));
    assert_eq!(attr(attrs, "class"), Some("btn btn-primary btn-wide text-lg"));
    assert_eq!(text_of(&kids[0]), "Save");
}

#[test]
fn form_title_is_a_heading() {
    let n: N = FormTitle("Welcome");
    let (tag, attrs, kids) = parts(&n);
    assert_eq!(tag, "h1");
    assert_eq!(attr(attrs, "class"), Some("text-primary text-2xl font-bold"));
    assert_eq!(text_of(&kids[0]), "Welcome");
}

#[test]
fn container_wraps_children_in_order() {
    let n: N = Container(vec![FormTitle("a"), FormSubmit("b")]);
    let (tag, attrs, kids) = parts(&n);
    assert_eq!(tag, "div");
    assert_eq!(attr(attrs, "class"), Some("container mx-auto pt-6"));
    assert_eq!(parts(&kids[0]).0, "h1");
    assert_eq!(parts(&kids[1]).0, "button");
}

#[test]
fn centered_card_nests_card_in_centering_box() {
    let n: N = CenteredCard(vec![Node::Embed { content: "inner" }]);
    let (_, outer, kids) = parts(&n);
    assert_eq!(attr(outer, "class"), Some("size-full flex flex-col justify-center items-center"));
    assert_eq!(kids.len(), 1);
    let (_, inner, card_kids) = parts(&kids[0]);
    assert_eq!(
        attr(inner, "class"),
        Some("w-full max-w-xl pt-6 pb-8 px-20 bg-base-100 rounded-xl border border-neutral shadow-lg")
    );
    match &card_kids[0] {
        Node::Embed { content } => assert_eq!(*content, "inner"),
        _ => panic!("not embedded content"),
    }
}
