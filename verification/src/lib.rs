//! Request-scoped context propagation across a middleware boundary.
//!
//! A `Context` is stamped into a per-request property bag (`Extensions`) by a
//! middleware layer before any handler runs; a response-composition layer
//! later reads it back and wraps handler output in an outer page template.
//! The one route of the example application renders a table of integers as
//! its inner content.

use vstd::prelude::*;

pub mod clock;
pub mod middleware;
pub mod responder;
pub mod template;
pub mod text;

use crate::middleware::AppendContext;
use crate::middleware::ContextView;
use crate::middleware::Extensions;
use crate::middleware::spec_elapsed;
use crate::middleware::spec_secret_word;
use crate::responder::PageError;
use crate::responder::PublicResponse;
use crate::responder::Response;
use crate::responder::TemplateToPubResponse;
use crate::responder::compose_response;
use crate::responder::spec_public_page;
use crate::template::Template;
use crate::text::dec_int;
use vstd::string::StringExecFns;

verus! {

/// One table row: the decimal rendering of a number between row markup.
pub open spec fn spec_row(n: i32) -> Seq<char> {
    "<tr><td>"@ + dec_int(n as int) + "</td></tr>"@
}

/// The rows of the table, in the order of the numbers.
pub open spec fn spec_rows(numbers: Seq<i32>) -> Seq<char>
    decreases numbers.len(),
{
    if numbers.len() == 0 {
        Seq::empty()
    } else {
        spec_rows(numbers.drop_last()) + spec_row(numbers.last())
    }
}

/// The inner table markup around the rows.
pub open spec fn spec_table(numbers: Seq<i32>) -> Seq<char> {
    "<table>"@ + spec_rows(numbers) + "</table>"@
}

/// The inner template of the one example route: a table listing numbers.
pub struct TableTemplate {
    pub numbers: Vec<i32>,
}

impl Template for TableTemplate {
    /// A table renders for every list of numbers.
    open spec fn renders(&self) -> bool {
        true
    }

    open spec fn output(&self) -> Seq<char> {
        spec_table(self.numbers@)
    }

    fn render(&self) -> (r: Result<String, PageError>)
        ensures
            r is Ok <==> self.renders(),
            r matches Ok(s) ==> s@ == self.output(),
            r matches Err(e) ==> e == PageError::TemplateRenderError,
    {
        let n = self.numbers.len();
        let mut out = String::new();
        out.append("<table>");
        let mut i: usize = 0;
        while i < n
            invariant
                i <= n,
                n == self.numbers@.len(),
                out@ == "<table>"@ + spec_rows(self.numbers@.subrange(0, i as int)),
            decreases n - i,
        {
            let ghost done = self.numbers@.subrange(0, i as int);
            out.append("<tr><td>");
            crate::text::push_i32(&mut out, self.numbers[i]);
            out.append("</td></tr>");
            proof {
                assert(self.numbers@.subrange(0, i + 1).drop_last() =~= done);
                assert(self.numbers@.subrange(0, i + 1).last() == self.numbers@[i as int]);
                assert(out@ =~= "<table>"@ + spec_rows(self.numbers@.subrange(0, i + 1)));
            }
            i += 1;
        }
        out.append("</table>");
        proof {
            assert(self.numbers@.subrange(0, n as int) =~= self.numbers@);
        }
        Ok(out)
    }
}

/// The numbers the example route shows: zero through nine, ascending.
pub open spec fn spec_index_numbers() -> Seq<i32> {
    Seq::new(10, |i: int| i as i32)
}

/// The one route handler: renders the index table as partial content. The
/// table always renders, so this always succeeds.
pub fn view_index() -> (r: Result<PublicResponse, PageError>)
    ensures
        r matches Ok(p) && p@ == spec_table(spec_index_numbers()),
{
    let mut numbers: Vec<i32> = Vec::new();
    let mut i: i32 = 0;
    while i < 10
        invariant
            0 <= i <= 10,
            numbers@.len() == i,
            forall|j: int| 0 <= j < i ==> numbers@[j] == j as i32,
        decreases 10 - i,
    {
        numbers.push(i);
        i = i + 1;
    }
    proof {
        assert(numbers@ =~= spec_index_numbers());
    }
    TableTemplate { numbers }.to_pub_response()
}

/// One whole request through the core, at the two clock readings involved:
/// the stamper runs first and installs the context, the handler renders the
/// inner table, and composition wraps it in the outer page. The response is
/// a success carrying exactly that page.
pub fn handle_index(stamp_now: u128, respond_now: u128) -> (r: Response)
    ensures
        r.status == 200,
        r.body@ == spec_public_page(
            ContextView { request_start: stamp_now, secret_word: spec_secret_word() },
            spec_elapsed(stamp_now, respond_now),
            spec_table(spec_index_numbers()),
        ),
{
    let mut bag = Extensions::new();
    let stamper = AppendContext {};
    let mw = stamper.new_transform(());
    mw.call_at(&mut bag, stamp_now);
    match view_index() {
        Ok(partial) => partial.respond_to_at(&bag, respond_now),
        Err(e) => {
            proof {
                assert(false);
            }
            crate::responder::error_response(&e)
        },
    }
}

} // verus!
