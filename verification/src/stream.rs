//! The lazy, finite stream a successful subscription returns.

use vstd::prelude::*;

verus! {

/// A finite, non-restartable sequence of values, produced one item per
/// poll. Its view is the sequence of items not yet produced, in production
/// order.
pub struct ValueStream {
    remaining: Vec<i32>,
}

impl View for ValueStream {
    type V = Seq<i32>;

    closed spec fn view(&self) -> Seq<i32> {
        self.remaining@
    }
}

impl ValueStream {
    /// A stream that yields `value` once and then completes.
    pub fn once(value: i32) -> (s: ValueStream)
        ensures
            s@ =~= seq![value],
    {
        let mut remaining: Vec<i32> = Vec::new();
        remaining.push(value);
        ValueStream { remaining }
    }

    /// Produces the next item, or reports completion. Items come out in
    /// production order; a completed stream stays completed.
    pub fn next(&mut self) -> (r: Option<i32>)
        ensures
            old(self)@.len() == 0 ==> r is None && final(self)@ == old(self)@,
            old(self)@.len() > 0 ==> r == Some(old(self)@[0]) && final(self)@ =~= old(self)@.drop_first(),
    {
        if self.remaining.len() > 0 {
            Some(self.remaining.remove(0))
        } else {
            None
        }
    }

    /// Tears the stream down: no item is produced after this.
    pub fn close(&mut self)
        ensures
            final(self)@.len() == 0,
    {
        self.remaining.clear();
    }
}

} // verus!
