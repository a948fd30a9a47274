//! Pull-based integer sources: a forward-only cursor over a sequence of
//! integers, the shape of input the lazy adapter consumes.

use vstd::prelude::*;

verus! {

/// A forward-only producer of integers.  `remaining()` is the sequence of
/// values still to come; each successful pull hands out its head.
pub trait IntSource: Sized {
    /// The values this source will still produce, in order.
    spec fn remaining(&self) -> Seq<i32>;

    /// Produces the next value, or nothing once the source is exhausted.
    /// An exhausted source stays exhausted.
    fn pull(&mut self) -> (r: Option<i32>)
        ensures
            old(self).remaining().len() == 0 ==> r is None,
            old(self).remaining().len() == 0 ==> final(self).remaining() == old(self).remaining(),
            old(self).remaining().len() > 0 ==> r == Some(old(self).remaining()[0]),
            old(self).remaining().len() > 0 ==> final(self).remaining() == old(self).remaining().skip(1),
    ;
}

/// The integers of a half-open range `lo..hi`, in increasing order.
pub struct RangeSource {
    cur: i32,
    end: i32,
}

impl RangeSource {
    /// A source producing `lo`, `lo + 1`, ... up to but not including `hi`;
    /// empty when `lo >= hi`.
    pub fn new(lo: i32, hi: i32) -> (r: RangeSource)
        ensures
            r.remaining().len() == (if lo < hi {
                hi - lo
            } else {
                0
            }),
            forall|k: int| 0 <= k < r.remaining().len() ==> r.remaining()[k] == lo + k,
    {
        RangeSource { cur: lo, end: hi }
    }
}

impl IntSource for RangeSource {
    closed spec fn remaining(&self) -> Seq<i32> {
        if self.cur < self.end {
            Seq::new((self.end - self.cur) as nat, |k: int| (self.cur + k) as i32)
        } else {
            Seq::empty()
        }
    }

    fn pull(&mut self) -> (r: Option<i32>) {
        if self.cur < self.end {
            let v = self.cur;
            self.cur = self.cur + 1;
            proof {
                assert(self.remaining() =~= old(self).remaining().skip(1));
            }
            Some(v)
        } else {
            None
        }
    }
}

/// A source handing out the elements of a vector, front to back.
pub struct VecSource {
    items: Vec<i32>,
    pos: usize,
}

impl VecSource {
    /// A source producing the elements of `items` in order.
    pub fn new(items: Vec<i32>) -> (r: VecSource)
        ensures
            r.remaining() == items@,
    {
        let r = VecSource { items, pos: 0 };
        proof {
            assert(r.remaining() =~= r.items@);
        }
        r
    }
}

impl IntSource for VecSource {
    closed spec fn remaining(&self) -> Seq<i32> {
        if self.pos <= self.items@.len() {
            self.items@.skip(self.pos as int)
        } else {
            Seq::empty()
        }
    }

    fn pull(&mut self) -> (r: Option<i32>) {
        if self.pos < self.items.len() {
            let v = self.items[self.pos];
            self.pos = self.pos + 1;
            proof {
                assert(self.remaining() =~= old(self).remaining().skip(1));
                assert(old(self).remaining()[0] == v);
            }
            Some(v)
        } else {
            None
        }
    }
}

} // verus!
