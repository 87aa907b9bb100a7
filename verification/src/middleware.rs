//! The Context Stamper: a middleware layer that attaches a per-request
//! `Context` to the request's scoped property bag before any handler runs.

use vstd::prelude::*;
use vstd::string::StringExecFns;

verus! {

/// Elapsed microseconds between a recorded start tick and a later clock
/// reading. A clock reading that lies before the start yields zero, never a
/// negative value.
pub open spec fn spec_elapsed(start: u128, now: u128) -> u128 {
    if now >= start {
        (now - start) as u128
    } else {
        0
    }
}

/// The mathematical value of a [`Context`]: its start tick and the characters
/// of its secret word.
pub struct ContextView {
    pub request_start: u128,
    pub secret_word: Seq<char>,
}

/// Contextual information passed to the page container.
/// Initialized in middleware, read (never mutated) by response composition.
#[derive(Debug, Clone)]
pub struct Context {
    /// Monotonic clock tick, in microseconds, captured when the stamper ran.
    pub request_start: u128,
    /// Static configured field made available to templates.
    pub secret_word: String,
}

impl View for Context {
    type V = ContextView;

    open spec fn view(&self) -> ContextView {
        ContextView { request_start: self.request_start, secret_word: self.secret_word@ }
    }
}

impl Context {
    /// Elapsed request time in microseconds, given a clock reading taken now.
    /// A reading before the recorded start yields zero.
    pub fn elapsed_micros(&self, now: u128) -> (elapsed: u128)
        ensures
            elapsed == spec_elapsed(self.request_start, now),
    {
        if now >= self.request_start {
            now - self.request_start
        } else {
            0
        }
    }

    /// Elapsed request time in microseconds, read from the clock now: for
    /// whatever reading came back, the elapsed time of that reading, never
    /// negative. [`Self::elapsed_micros`] pins what is returned for each
    /// reading.
    pub fn request_time(&self) -> (elapsed: u128)
        ensures
            exists|now: u128| elapsed == spec_elapsed(self.request_start, now),
    {
        let now = crate::clock::now_micros();
        let elapsed = self.elapsed_micros(now);
        proof {
            assert(elapsed == spec_elapsed(self.request_start, now));
        }
        elapsed
    }
}

/// Elapsed time read at any later clock value is non-negative and
/// non-decreasing in the clock: a later reading never reports less.
pub proof fn lemma_elapsed_monotonic(start: u128, now1: u128, now2: u128)
    requires
        now1 <= now2,
    ensures
        spec_elapsed(start, now1) >= 0,
        spec_elapsed(start, now1) <= spec_elapsed(start, now2),
{
}

/// The request-scoped property bag: per-request storage holding at most one
/// value per stored kind. The only kind this core ever stores is `Context`.
pub struct Extensions {
    context: Option<Context>,
}

impl Extensions {
    /// The context slot of the bag, as a mathematical value.
    pub closed spec fn ctx(&self) -> Option<Context> {
        self.context
    }

    /// An empty bag: no context stored yet.
    pub fn new() -> (bag: Extensions)
        ensures
            bag.ctx() is None,
    {
        Extensions { context: None }
    }

    /// Stores a context, replacing any previous one: at most one value of the
    /// kind is ever present.
    pub fn insert_context(&mut self, context: Context)
        ensures
            final(self).ctx() == Some(context),
    {
        self.context = Some(context);
    }

    /// Reads the stored context back, if any.
    pub fn get_context(&self) -> (r: Option<&Context>)
        ensures
            match r {
                Some(c) => self.ctx() == Some(*c),
                None => self.ctx() is None,
            },
    {
        self.context.as_ref()
    }

    /// Whether a context has been stored.
    pub fn contains_context(&self) -> (present: bool)
        ensures
            present == (self.ctx() is Some),
    {
        self.context.is_some()
    }
}

/// The secret word every stamped context carries.
pub open spec fn spec_secret_word() -> Seq<char> {
    "Popsicle"@
}

/// Middleware struct for appending the `Context` to the request's bag.
#[derive(Debug, Clone, Copy)]
pub struct AppendContext {}

impl AppendContext {
    /// Wraps an inner service: the resulting middleware stamps a context and
    /// then lets the wrapped service handle the request.
    pub fn new_transform<S>(&self, service: S) -> (mw: AppendContextMiddleware<S>)
        ensures
            mw.service == service,
    {
        AppendContextMiddleware { service }
    }
}

/// The stamping stage itself, wrapped around an inner service. Driving the
/// inner service is the hosting framework's job; the decision this core owns
/// is the stamp placed before the service runs.
pub struct AppendContextMiddleware<S> {
    pub service: S,
}

impl<S> AppendContextMiddleware<S> {
    /// Stamps a fresh `Context` into the request's bag, with the given clock
    /// reading as its start: after this stage the bag holds exactly that
    /// context. Replaces nothing else and never fails.
    pub fn call_at(&self, bag: &mut Extensions, now: u128)
        ensures
            final(bag).ctx() matches Some(c) && c@ == (ContextView {
                request_start: now,
                secret_word: spec_secret_word(),
            }),
    {
        let context = Context { request_start: now, secret_word: String::from_str("Popsicle") };
        bag.insert_context(context);
    }

    /// Stamps a fresh `Context` with the clock read now: whatever the clock
    /// returned, a context carrying the configured secret word is present in
    /// the bag before the wrapped service runs.
    pub fn call(&self, bag: &mut Extensions)
        ensures
            final(bag).ctx() matches Some(c) && c@.secret_word == spec_secret_word(),
    {
        let now = crate::clock::now_micros();
        self.call_at(bag, now);
    }
}

} // verus!
