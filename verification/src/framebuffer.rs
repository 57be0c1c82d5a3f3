//! The render target of a context.

use vstd::prelude::*;

verus! {

/// What a context renders to: nothing, a target that the host supplied, or a
/// surface that the context owns while it is attached.
#[derive(Debug)]
pub enum Framebuffer<S, E> {
    /// Nothing is attached.
    Unbound,
    /// A render target that was created elsewhere and cannot be inspected or
    /// released from here.
    External(E),
    /// A surface, owned by the context until it is unbound.
    Surface(S),
}

} // verus!
