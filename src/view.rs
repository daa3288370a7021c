use libc::c_int;
use vstd::prelude::*;

verus! {

/// Adds one to `a`.
///
/// The largest `c_int` has no successor, so it is not an admitted input.
pub fn add_one(a: c_int) -> (r: c_int)
    requires
        a < i32::MAX,
    ensures
        r == a + 1,
{
    a + 1
}

/// A non-owning view of `length` integers that start at position `members`
/// of a backing memory held elsewhere.
pub struct IntArray {
    pub length: c_int,
    pub members: usize,
}

impl IntArray {
    /// The view names a run that lies inside `memory` and ends at an
    /// addressable position.
    pub open spec fn wf_in(self, memory: Seq<c_int>) -> bool {
        &&& 0 <= self.length
        &&& self.members + self.length <= memory.len()
        &&& self.members + self.length <= usize::MAX
    }

    /// The integers that the view names in `memory`.
    pub open spec fn view_in(self, memory: Seq<c_int>) -> Seq<c_int> {
        memory.subrange(self.members as int, self.members + self.length)
    }

    /// The view that skips the first integer of this one.
    pub open spec fn spec_tail(self) -> IntArray {
        IntArray { length: (self.length - 1) as c_int, members: (self.members + 1) as usize }
    }

    /// The first integer of the view.
    ///
    /// An empty view has no first integer and is not an admitted input.
    pub fn first(&self, memory: &[c_int]) -> (r: c_int)
        requires
            self.wf_in(memory@),
            self.length >= 1,
        ensures
            r == self.view_in(memory@)[0],
            r == memory@[self.members as int],
    {
        memory[self.members]
    }

    /// A freshly allocated view of all but the first integer of this one.
    ///
    /// Nothing is copied: the result names the same backing memory, one
    /// position further on. An empty view has no tail and is not an admitted
    /// input.
    pub fn tail(&self) -> (r: Box<IntArray>)
        requires
            self.length >= 1,
            self.members + self.length <= usize::MAX,
        ensures
            *r == self.spec_tail(),
    {
        Box::new(IntArray { length: self.length - 1, members: self.members + 1 })
    }
}

/// The first integer of the view `a`; see [`IntArray::first`].
pub fn head(a: &IntArray, memory: &[c_int]) -> (r: c_int)
    requires
        a.wf_in(memory@),
        a.length >= 1,
    ensures
        r == a.view_in(memory@)[0],
        r == memory@[a.members as int],
{
    a.first(memory)
}

/// A freshly allocated view of all but the first integer of `a`; see
/// [`IntArray::tail`].
pub fn tail(a: &IntArray) -> (r: Box<IntArray>)
    requires
        a.length >= 1,
        a.members + a.length <= usize::MAX,
    ensures
        *r == a.spec_tail(),
{
    a.tail()
}

/// The tail of a view that lies in `memory` lies in `memory` too, and reads
/// the integers of the view without its first one.
pub proof fn lemma_tail_view(a: IntArray, memory: Seq<c_int>)
    requires
        a.wf_in(memory),
        a.length >= 1,
    ensures
        a.spec_tail().wf_in(memory),
        a.spec_tail().view_in(memory) == a.view_in(memory).drop_first(),
{
    assert(a.spec_tail().view_in(memory) =~= a.view_in(memory).drop_first());
}

/// The tail of a view shares the view's backing memory: writing `v` at the
/// position of the tail's `i`-th integer after the tail was taken is seen
/// through the tail at index `i`, and nothing else it reads changes.
pub proof fn lemma_tail_shares_memory(a: IntArray, memory: Seq<c_int>, i: int, v: c_int)
    requires
        a.wf_in(memory),
        a.length >= 1,
        0 <= i < a.length - 1,
    ensures
        a.spec_tail().wf_in(memory.update(a.members + 1 + i, v)),
        a.spec_tail().view_in(memory.update(a.members + 1 + i, v)) == a.spec_tail().view_in(
            memory,
        ).update(i, v),
        a.spec_tail().view_in(memory.update(a.members + 1 + i, v))[i] == v,
{
    let t = a.spec_tail();
    let m2 = memory.update(a.members + 1 + i, v);
    assert(t.view_in(m2) =~= t.view_in(memory).update(i, v));
}

} // verus!
