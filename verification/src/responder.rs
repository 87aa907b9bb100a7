//! The Response Wrapper: converts a handler's inner content into the final
//! outer-wrapped response, sourcing the per-request `Context` from the
//! request's scoped property bag rather than from handler parameters.

use crate::middleware::Context;
use crate::middleware::ContextView;
use crate::middleware::Extensions;
use crate::middleware::spec_elapsed;
use crate::template::Template;
use crate::text::dec_digits;
use crate::text::escape_html;
use crate::text::escape_seq;
use crate::text::has_substring;
use crate::text::lemma_concat_has_substring;
use crate::text::push_u128;
use vstd::prelude::*;
use vstd::string::StringExecFns;

verus! {

/// The two failure kinds of this core, both surfaced as internal server
/// errors: a template that would not render, and a finalization step reached
/// without a prior Context Stamper pass.
#[derive(Debug, Clone, Copy, PartialEq, Eq, Structural)]
pub enum PageError {
    TemplateRenderError,
    MissingContextError,
}

/// The body of the internal-server-error response for a render failure.
pub open spec fn spec_render_error_body() -> Seq<char> {
    "Template parsing error"@
}

/// The body of the internal-server-error response for a missing context.
pub open spec fn spec_missing_context_body() -> Seq<char> {
    "Failed to pass context to container template"@
}

impl PageError {
    /// The fixed, non-sensitive message surfaced to the client for this error.
    pub fn message(&self) -> (msg: String)
        ensures
            *self == PageError::TemplateRenderError ==> msg@ == spec_render_error_body(),
            *self == PageError::MissingContextError ==> msg@ == spec_missing_context_body(),
    {
        match self {
            PageError::TemplateRenderError => String::from_str("Template parsing error"),
            PageError::MissingContextError => String::from_str(
                "Failed to pass context to container template",
            ),
        }
    }
}

/// The final HTTP response this core produces: a status code and a body.
#[derive(Debug)]
pub struct Response {
    pub status: u16,
    pub body: String,
}

/// The internal-server-error response for a failure kind: status 500 and the
/// fixed message of the error, never a degraded success.
pub fn error_response(e: &PageError) -> (r: Response)
    ensures
        r.status == 500,
        *e == PageError::TemplateRenderError ==> r.body@ == spec_render_error_body(),
        *e == PageError::MissingContextError ==> r.body@ == spec_missing_context_body(),
{
    Response { status: 500, body: e.message() }
}

/// The outer page: the shell markup around the escaped secret word, the
/// partial content, and the elapsed request time in microseconds.
pub open spec fn spec_public_page(c: ContextView, elapsed: u128, content: Seq<char>) -> Seq<
    char,
> {
    "<!DOCTYPE html><html><head><title>Public</title></head><body><header>"@ + escape_seq(
        c.secret_word,
    ) + "</header><main>"@ + content + "</main><footer>rendered in "@ + dec_digits(elapsed as nat)
        + " us</footer></body></html>"@
}

/// Renders the outer page for a context and partial content, at the given
/// clock reading.
fn render_public_page(context: &Context, content: &str, now: u128) -> (out: String)
    ensures
        out@ == spec_public_page(context@, spec_elapsed(context.request_start, now), content@),
{
    let mut out = String::new();
    out.append("<!DOCTYPE html><html><head><title>Public</title></head><body><header>");
    let escaped = escape_html(context.secret_word.as_str());
    out.append(escaped.as_str());
    out.append("</header><main>");
    out.append(content);
    out.append("</main><footer>rendered in ");
    let elapsed = context.elapsed_micros(now);
    push_u128(&mut out, elapsed);
    out.append(" us</footer></body></html>");
    out
}

/// Wraps content from an inner template for the outer public page container.
/// Holds the partial content until the hosting framework asks for the final
/// response, at which point the context is read from request-scoped storage.
pub struct PublicResponse {
    content: String,
}

impl View for PublicResponse {
    type V = Seq<char>;

    closed spec fn view(&self) -> Seq<char> {
        self.content@
    }
}

impl PublicResponse {
    /// Finalization at a given clock reading: looks the `Context` up in the
    /// request's scoped storage. Absent, this is a wiring defect: status 500
    /// with the fixed missing-context message, never a silent fallback
    /// context. Present, the outer page is rendered around the partial
    /// content: status 200.
    pub fn respond_to_at(self, bag: &Extensions, now: u128) -> (r: Response)
        ensures
            bag.ctx() is None ==> r.status == 500 && r.body@ == spec_missing_context_body(),
            bag.ctx() matches Some(c) ==> r.status == 200 && r.body@ == spec_public_page(
                c@,
                spec_elapsed(c.request_start, now),
                self@,
            ),
    {
        match bag.get_context() {
            None => error_response(&PageError::MissingContextError),
            Some(context) => Response {
                status: 200,
                body: render_public_page(context, self.content.as_str(), now),
            },
        }
    }

    /// Finalization with the clock read now. The reading only decides the
    /// elapsed time shown in the page footer; presence of the context decides
    /// success, and for every reading the body is the outer page around this
    /// partial content.
    pub fn respond_to(self, bag: &Extensions) -> (r: Response)
        ensures
            bag.ctx() is None ==> r.status == 500 && r.body@ == spec_missing_context_body(),
            bag.ctx() matches Some(c) ==> r.status == 200 && (exists|now: u128|
                r.body@ == spec_public_page(c@, spec_elapsed(c.request_start, now), self@)),
    {
        let now = crate::clock::now_micros();
        self.respond_to_at(bag, now)
    }
}

/// Produces the intermediate partial result that the outer page container
/// will be wrapped around.
pub trait TemplateToPubResponse: Template {
    /// Render step: renders the inner template to partial content. A render
    /// failure is surfaced as `TemplateRenderError`; finalization is never
    /// reached for it.
    fn to_pub_response(&self) -> (r: Result<PublicResponse, PageError>)
        ensures
            r is Ok <==> self.renders(),
            r matches Ok(p) ==> p@ == self.output(),
            r matches Err(e) ==> e == PageError::TemplateRenderError,
    ;
}

impl<T: Template> TemplateToPubResponse for T {
    fn to_pub_response(&self) -> (r: Result<PublicResponse, PageError>)
        ensures
            r is Ok <==> self.renders(),
            r matches Ok(p) ==> p@ == self.output(),
            r matches Err(e) ==> e == PageError::TemplateRenderError,
    {
        match self.render() {
            Ok(buffer) => Ok(PublicResponse { content: buffer }),
            Err(e) => Err(e),
        }
    }
}

/// The whole response-composition step: render the inner template, then
/// finalize against the request's scoped storage. One adapter shared by every
/// handler, so no handler threads the context through its own signature.
pub fn compose_response<T: Template>(template: &T, bag: &Extensions, now: u128) -> (r: Response)
    ensures
        !template.renders() ==> r.status == 500 && r.body@ == spec_render_error_body(),
        template.renders() && bag.ctx() is None ==> r.status == 500 && r.body@
            == spec_missing_context_body(),
        template.renders() ==> (bag.ctx() matches Some(c) ==> r.status == 200 && r.body@
            == spec_public_page(c@, spec_elapsed(c.request_start, now), template.output())),
{
    match template.to_pub_response() {
        Ok(partial) => partial.respond_to_at(bag, now),
        Err(e) => error_response(&e),
    }
}

/// Round trip: whenever the inner render succeeded and a context is present,
/// finalization succeeds, and the composed page contains the partial content
/// as a substring.
pub proof fn lemma_round_trip(c: ContextView, elapsed: u128, content: Seq<char>)
    ensures
        has_substring(spec_public_page(c, elapsed, content), content),
{
    let head = "<!DOCTYPE html><html><head><title>Public</title></head><body><header>"@
        + escape_seq(c.secret_word) + "</header><main>"@;
    let tail = "</main><footer>rendered in "@ + dec_digits(elapsed as nat)
        + " us</footer></body></html>"@;
    assert(spec_public_page(c, elapsed, content) =~= head + content + tail);
    lemma_concat_has_substring(head, content, tail);
}

} // verus!
