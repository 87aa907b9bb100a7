use page_context::handle_index;
use page_context::middleware::AppendContext;
use page_context::middleware::Context;
use page_context::middleware::Extensions;
use page_context::responder::PageError;
use page_context::responder::compose_response;
use page_context::responder::error_response;
use page_context::template::Segment;
use page_context::view_index;

#[test]
fn stamper_installs_context() {
    let mut bag = Extensions::new();
    assert!(!bag.contains_context());
    let mw = AppendContext {}.new_transform(());
    mw.call(&mut bag);
    assert!(bag.contains_context());
    let ctx = bag.get_context().expect("context must be present after the stamper");
    assert_eq!(ctx.secret_word, "Popsicle");
}

#[test]
fn stamper_records_given_start() {
    let mut bag = Extensions::new();
    let mw = AppendContext {}.new_transform(());
    mw.call_at(&mut bag, 12345);
    let ctx = bag.get_context().unwrap();
    assert_eq!(ctx.request_start, 12345);
    assert_eq!(ctx.secret_word, "Popsicle");
}

#[test]
fn insert_replaces_previous_context() {
    let mut bag = Extensions::new();
    bag.insert_context(Context { request_start: 1, secret_word: String::from("first") });
    bag.insert_context(Context { request_start: 2, secret_word: String::from("second") });
    let ctx = bag.get_context().unwrap();
    assert_eq!(ctx.request_start, 2);
    assert_eq!(ctx.secret_word, "second");
}

#[test]
fn elapsed_is_difference_of_readings() {
    let ctx = Context { request_start: 1000, secret_word: String::from("Popsicle") };
    assert_eq!(ctx.elapsed_micros(1500), 500);
    assert_eq!(ctx.elapsed_micros(1000), 0);
}

#[test]
fn elapsed_before_start_is_zero() {
    let ctx = Context { request_start: 1000, secret_word: String::from("Popsicle") };
    assert_eq!(ctx.elapsed_micros(999), 0);
}

#[test]
fn request_time_runs() {
    let ctx = Context { request_start: 0, secret_word: String::from("Popsicle") };
    let _elapsed: u128 = ctx.request_time();
}

#[test]
fn round_trip_body_contains_partial_content() {
    let partial = view_index().expect("the index table always renders");
    let mut bag = Extensions::new();
    bag.insert_context(Context { request_start: 10, secret_word: String::from("Popsicle") });
    let response = partial.respond_to_at(&bag, 40);
    assert_eq!(response.status, 200);
    let mut inner = String::from("<table>");
    for i in 0..10 {
        inner.push_str(&format!("<tr><td>{}</td></tr>", i));
    }
    inner.push_str("</table>");
    assert!(response.body.contains(&inner));
}

#[test]
fn missing_context_yields_500_not_a_fallback() {
    let partial = view_index().unwrap();
    let bag = Extensions::new();
    let response = partial.respond_to_at(&bag, 40);
    assert_eq!(response.status, 500);
    assert_eq!(response.body, "Failed to pass context to container template");
}

#[test]
fn missing_context_through_compose() {
    let template = page_context::TableTemplate { numbers: vec![1, 2] };
    let bag = Extensions::new();
    let response = compose_response(&template, &bag, 0);
    assert_eq!(response.status, 500);
    assert_eq!(response.body, "Failed to pass context to container template");
}

#[test]
fn render_failure_yields_500_and_skips_finalization() {
    let template = page_context::template::BindingTemplate {
        segments: vec![Segment::Var(String::from("missing"))],
        bindings: vec![],
    };
    let mut bag = Extensions::new();
    bag.insert_context(Context { request_start: 0, secret_word: String::from("Popsicle") });
    let response = compose_response(&template, &bag, 5);
    assert_eq!(response.status, 500);
    assert_eq!(response.body, "Template parsing error");
}

#[test]
fn error_messages_are_fixed() {
    assert_eq!(error_response(&PageError::TemplateRenderError).body, "Template parsing error");
    assert_eq!(
        error_response(&PageError::MissingContextError).body,
        "Failed to pass context to container template"
    );
}

#[test]
fn end_to_end_index_request() {
    let response = handle_index(1000, 1500);
    assert_eq!(response.status, 200);
    let mut expected = String::new();
    expected.push_str("<!DOCTYPE html><html><head><title>Public</title></head><body><header>");
    expected.push_str("Popsicle</header><main><table>");
    for i in 0..10 {
        expected.push_str(&format!("<tr><td>{}</td></tr>", i));
    }
    expected.push_str("</table></main><footer>rendered in 500 us</footer></body></html>");
    assert_eq!(response.body, expected);
}

#[test]
fn end_to_end_integers_ascending() {
    let response = handle_index(0, 0);
    let mut last_pos = 0;
    for i in 0..10 {
        let marker = format!("<td>{}</td>", i);
        let pos = response.body.find(&marker).expect("every integer appears");
        assert!(pos >= last_pos, "integers must appear in ascending order");
        last_pos = pos;
    }
}
