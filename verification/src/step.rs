//! The shape of a use case that reads as it decides: at each point it
//! either needs one more fact from the stores, or has its answer.
use vstd::prelude::*;

verus! {

/// What a use case needs next: the fact `Q` to read, or its answer.
pub enum Step<Q, T, E> {
    /// Read this fact, record it, and ask again.
    Read(Q),
    /// The use case is decided.
    Answer(Result<T, E>),
}

} // verus!
