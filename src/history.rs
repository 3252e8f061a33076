//! A fixed-length window of past values, most recent first, as the
//! recursive filter keeps its inputs and outputs.
use vstd::prelude::*;

verus! {

/// The last `len` values seen, most recent first.
pub struct History<T> {
    items: Vec<T>,
}

impl<T> View for History<T> {
    type V = Seq<T>;

    closed spec fn view(&self) -> Seq<T> {
        self.items@
    }
}

impl<T: Copy> History<T> {
    /// A window of `len` copies of `value`.
    pub fn filled(len: usize, value: T) -> (r: History<T>)
        ensures
            r@ == Seq::new(len as nat, |_i: int| value),
    {
        let mut items: Vec<T> = Vec::new();
        let mut i: usize = 0;
        while i < len
            invariant
                i <= len,
                items@ == Seq::new(i as nat, |_i: int| value),
            decreases len - i,
        {
            items.push(value);
            i = i + 1;
            proof {
                assert(items@ =~= Seq::new(i as nat, |_i: int| value));
            }
        }
        History { items }
    }

    /// The length of the window.
    pub fn len(&self) -> (r: usize)
        ensures
            r == self@.len(),
    {
        self.items.len()
    }

    /// The value seen `i` steps before the most recent one.
    pub fn get(&self, i: usize) -> (r: T)
        requires
            i < self@.len(),
        ensures
            r == self@[i as int],
    {
        self.items[i]
    }

    /// Puts `value` in front and drops the oldest value, so the length is
    /// kept.
    pub fn push(&mut self, value: T)
        ensures
            final(self)@ == (seq![value] + old(self)@).drop_last(),
            final(self)@.len() == old(self)@.len(),
    {
        self.items.insert(0, value);
        proof {
            assert(self.items@ =~= seq![value] + old(self)@);
        }
        self.items.pop();
    }
}

/// A window that holds only `value` still holds only `value` after `value`
/// is pushed: fed zeros from a zero state, the filter's windows stay zero.
pub proof fn lemma_constant_window_stays<T>(h: Seq<T>, value: T)
    requires
        forall|i: int| 0 <= i < h.len() ==> #[trigger] h[i] == value,
    ensures
        forall|i: int|
            0 <= i < h.len() ==> #[trigger] (seq![value] + h).drop_last()[i] == value,
        (seq![value] + h).drop_last().len() == h.len(),
{
    assert forall|i: int| 0 <= i < h.len() implies #[trigger] (seq![value] + h).drop_last()[i]
        == value by {
        if i > 0 {
            assert((seq![value] + h)[i] == h[i - 1]);
        }
    }
}

} // verus!
