//! What compiling yields.

use vstd::prelude::*;
use crate::context::Context;
use crate::loader::PartialLoader;

verus! {

/// A compiled template: the tokens of its body, the names of the partials
/// that the body refers to, and a context of its own through which those
/// names are resolved when the template is rendered.
///
/// What a token is belongs to the compiler; the library carries `T` along
/// and never looks inside.
#[derive(Debug)]
pub struct Template<P: PartialLoader, T> {
    pub context: Context<P>,
    pub tokens: T,
    pub partials: Vec<String>,
}

impl<P: PartialLoader, T> Template<P, T> {
    /// A template of these three parts.
    pub fn new(context: Context<P>, tokens: T, partials: Vec<String>) -> (template: Self)
        ensures
            template.context == context,
            template.tokens == tokens,
            template.partials == partials,
    {
        Template { context, tokens, partials }
    }
}

} // verus!
