use vstd::prelude::*;
use vstd::std_specs::iter::IteratorSpec;

verus! {

/// A lazy sequence of per-item results, made from an operation that either
/// failed before it produced anything or produced a sequence of items.
pub enum IteratedResult<I, E> {
    /// The operation failed; its error is the one item still to be yielded.
    Failed(E),
    /// The operation succeeded; the items of `I` are still to be yielded.
    Items(I),
    /// The error has been yielded; nothing is left.
    Done,
}

impl<I: Iterator, E> IteratedResult<I, E> {
    /// Yields the next item. A failure is yielded once, as `Err`, and the
    /// sequence then ends. Otherwise one item is pulled from the underlying
    /// iterator, no more, and handed on as `Ok`; the sequence ends where the
    /// underlying iterator ends.
    pub fn next(&mut self) -> (item: Option<Result<I::Item, E>>)
        ensures
            match *old(self) {
                IteratedResult::Failed(e) => {
                    &&& item == Some(Err::<I::Item, E>(e))
                    &&& *final(self) == IteratedResult::<I, E>::Done
                },
                IteratedResult::Done => {
                    &&& item is None
                    &&& *final(self) == IteratedResult::<I, E>::Done
                },
                IteratedResult::Items(before) => {
                    &&& *final(self) matches IteratedResult::Items(after)
                    &&& (item matches Some(i) ==> i is Ok)
                    &&& after.obeys_prophetic_iter_laws() == before.obeys_prophetic_iter_laws()
                    &&& before.obeys_prophetic_iter_laws() ==> if before.remaining().len() > 0 {
                        &&& item == Some(Ok::<I::Item, E>(before.remaining()[0]))
                        &&& after.remaining() == before.remaining().drop_first()
                    } else {
                        &&& item is None
                        &&& after.remaining() == before.remaining()
                    }
                },
            },
    {
        match self {
            IteratedResult::Items(items) => {
                match items.next() {
                    Some(value) => Some(Ok(value)),
                    None => None,
                }
            },
            IteratedResult::Done => None,
            IteratedResult::Failed(_) => {
                let mut taken = IteratedResult::Done;
                std::mem::swap(self, &mut taken);
                match taken {
                    IteratedResult::Failed(e) => Some(Err(e)),
                    _ => None,
                }
            },
        }
    }
}

/// Conversion of a fallible "make an iterator" result into one uniform lazy
/// sequence of results.
pub trait IntoIteratedResultEx<I: Iterator, E>: Sized {
    fn into_iterated_result(self) -> IteratedResult<I, E>;
}

impl<I: Iterator, E> IntoIteratedResultEx<I, E> for Result<I, E> {
    /// An error becomes the sequence of that one error; an iterator becomes
    /// the sequence of its items. Nothing is pulled from the iterator here.
    fn into_iterated_result(self) -> (sequence: IteratedResult<I, E>)
        ensures
            sequence == (match self {
                Ok(items) => IteratedResult::Items(items),
                Err(e) => IteratedResult::Failed(e),
            }),
    {
        match self {
            Ok(items) => IteratedResult::Items(items),
            Err(e) => IteratedResult::Failed(e),
        }
    }
}

} // verus!
