use page_context::TableTemplate;
use page_context::template::BindingTemplate;
use page_context::template::Segment;
use page_context::template::Template;
use page_context::text::escape_html;
use page_context::text::push_i32;
use page_context::text::push_u128;

#[test]
fn table_renders_exact_markup() {
    let template = TableTemplate { numbers: vec![3, 1, 4] };
    let rendered = template.render().expect("a table always renders");
    assert_eq!(rendered, "<table><tr><td>3</td></tr><tr><td>1</td></tr><tr><td>4</td></tr></table>");
}

#[test]
fn empty_table_renders() {
    let template = TableTemplate { numbers: vec![] };
    assert_eq!(template.render().unwrap(), "<table></table>");
}

#[test]
fn rendering_is_idempotent() {
    let template = TableTemplate { numbers: vec![7, -2, 0] };
    let first = template.render().unwrap();
    let second = template.render().unwrap();
    assert_eq!(first.as_bytes(), second.as_bytes());
}

#[test]
fn decimal_formatting_exact() {
    let mut out = String::new();
    push_u128(&mut out, 0);
    assert_eq!(out, "0");
    let mut out = String::new();
    push_u128(&mut out, 1204500);
    assert_eq!(out, "1204500");
    let mut out = String::new();
    push_u128(&mut out, u128::MAX);
    assert_eq!(out, "340282366920938463463374607431768211455");
}

#[test]
fn signed_formatting_exact() {
    let mut out = String::new();
    push_i32(&mut out, -57);
    assert_eq!(out, "-57");
    let mut out = String::new();
    push_i32(&mut out, i32::MIN);
    assert_eq!(out, "-2147483648");
    let mut out = String::new();
    push_i32(&mut out, i32::MAX);
    assert_eq!(out, "2147483647");
}

#[test]
fn escaping_replaces_the_five_significant_characters() {
    assert_eq!(escape_html("a<b&c>\"d'"), "a&lt;b&amp;c&gt;&quot;d&#x27;");
    assert_eq!(escape_html("plain text"), "plain text");
    assert_eq!(escape_html(""), "");
}

#[test]
fn binding_template_interleaves_literals_and_values() {
    let template = BindingTemplate {
        segments: vec![
            Segment::Lit(String::from("Hello, ")),
            Segment::Var(String::from("name")),
            Segment::Lit(String::from("!")),
        ],
        bindings: vec![(String::from("name"), String::from("World"))],
    };
    assert_eq!(template.render().unwrap(), "Hello, World!");
}

#[test]
fn binding_template_first_binding_wins() {
    let template = BindingTemplate {
        segments: vec![Segment::Var(String::from("k"))],
        bindings: vec![
            (String::from("k"), String::from("first")),
            (String::from("k"), String::from("second")),
        ],
    };
    assert_eq!(template.render().unwrap(), "first");
}

#[test]
fn binding_template_missing_binding_fails() {
    let template = BindingTemplate {
        segments: vec![
            Segment::Lit(String::from("a")),
            Segment::Var(String::from("absent")),
        ],
        bindings: vec![(String::from("present"), String::from("v"))],
    };
    assert!(matches!(
        template.render(),
        Err(page_context::responder::PageError::TemplateRenderError)
    ));
}
