//! Adapters that erase the difference between "a sequence of results was
//! produced" and "no sequence was produced at all".
//!
//! A query against a degraded pattern object produces no underlying result
//! sequence. Wrapping that absence here yields a sequence that is
//! immediately exhausted, never an error: both the present and the absent
//! outcome are consumed through the same type.

use vstd::prelude::*;

verus! {

/// An optional sequence of query results, consumed front to back.
///
/// When absent, the sequence is empty: `next` signals exhaustion at once.
/// When present, `next` yields the wrapped elements in order, unchanged.
pub struct OptionIter<T> {
    inner: Option<Vec<T>>,
}

impl<T> View for OptionIter<T> {
    type V = Seq<T>;

    /// The elements still to be yielded; empty when absent.
    closed spec fn view(&self) -> Seq<T> {
        match self.inner {
            Option::None => Seq::empty(),
            Option::Some(v) => v@,
        }
    }
}

impl<T> OptionIter<T> {
    /// Wrap a present sequence of results.
    pub fn some(value: Vec<T>) -> (r: Self)
        ensures
            r@ == value@,
    {
        OptionIter { inner: Some(value) }
    }

    /// Wrap the absence of a result sequence: the adapter is exhausted
    /// from the start.
    pub fn none() -> (r: Self)
        ensures
            r@ == Seq::<T>::empty(),
    {
        OptionIter { inner: None }
    }

    /// How many elements are still to be yielded.
    pub fn remaining(&self) -> (n: usize)
        ensures
            n == self@.len(),
    {
        match &self.inner {
            None => 0,
            Some(v) => v.len(),
        }
    }

    /// Yield the next element, or `None` once the sequence is exhausted.
    /// Absence is not an error: it behaves as an already-exhausted
    /// sequence.
    pub fn next(&mut self) -> (r: Option<T>)
        ensures
            old(self)@.len() == 0 ==> r is None && final(self)@ == old(self)@,
            old(self)@.len() > 0 ==> r == Some(old(self)@[0]) && final(self)@ == old(self)@.drop_first(),
    {
        let taken = self.inner.take();
        match taken {
            None => None,
            Some(mut v) => {
                if v.len() == 0 {
                    self.inner = Some(v);
                    None
                } else {
                    let x = v.remove(0);
                    self.inner = Some(v);
                    Some(x)
                }
            },
        }
    }

    /// Drain the adapter: every element still to be yielded, in order.
    pub fn collect(self) -> (r: Vec<T>)
        ensures
            r@ == self@,
    {
        match self.inner {
            None => Vec::new(),
            Some(v) => v,
        }
    }
}

/// An optional sequence of owned query results, turned into an
/// [`OptionIter`] at the point of use.
///
/// The same absence contract holds: wrapping "no results" produces a
/// sequence that terminates immediately with zero elements.
pub struct OptionIntoIter<T> {
    inner: Option<Vec<T>>,
}

impl<T> View for OptionIntoIter<T> {
    type V = Seq<T>;

    /// The elements the eventual iteration will yield; empty when absent.
    closed spec fn view(&self) -> Seq<T> {
        match self.inner {
            Option::None => Seq::empty(),
            Option::Some(v) => v@,
        }
    }
}

impl<T> OptionIntoIter<T> {
    /// Wrap a present sequence of results.
    pub fn some(value: Vec<T>) -> (r: Self)
        ensures
            r@ == value@,
    {
        OptionIntoIter { inner: Some(value) }
    }

    /// Wrap the absence of a result sequence.
    pub fn none() -> (r: Self)
        ensures
            r@ == Seq::<T>::empty(),
    {
        OptionIntoIter { inner: None }
    }

    /// Transfer ownership into an iteration adapter over the same
    /// elements.
    pub fn into_iter(self) -> (r: OptionIter<T>)
        ensures
            r@ == self@,
    {
        match self.inner {
            None => OptionIter::none(),
            Some(v) => OptionIter::some(v),
        }
    }
}

} // verus!

