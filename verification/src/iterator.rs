//! A pull-based sequence over a foreign range that is given by two
//! positions, its begin and its end.

use vstd::prelude::*;
use vstd::slice::*;
use vstd::string::StringSliceAdditionalSpecFns;

verus! {

/// A position in a foreign sequence: it can be compared with another
/// position of the same sequence, read, and moved by one step.
pub trait CppPosition: Sized {
    /// What the sequence holds.
    type Item;

    /// The sequence that this position belongs to.
    spec fn elements(&self) -> Seq<Self::Item>;

    /// How many elements stand before this position.
    spec fn index(&self) -> int;

    /// Tells whether both positions stand at the same place.
    fn same_position(&self, other: &Self) -> (r: bool)
        requires
            0 <= self.index() <= self.elements().len(),
            0 <= other.index() <= other.elements().len(),
            self.elements() == other.elements(),
        ensures
            r == (self.index() == other.index()),
    ;

    /// The element at this position.
    fn indirection(&self) -> (r: Self::Item)
        requires
            0 <= self.index() <= self.elements().len(),
            self.index() < self.elements().len(),
        ensures
            r == self.elements()[self.index()],
    ;

    /// Moves one step towards the end.
    fn inc(&mut self)
        requires
            0 <= old(self).index() <= old(self).elements().len(),
            old(self).index() < old(self).elements().len(),
        ensures
            final(self).elements() == old(self).elements(),
            final(self).index() == old(self).index() + 1,
    ;

    /// Moves one step towards the begin.
    fn dec(&mut self)
        requires
            0 <= old(self).index() <= old(self).elements().len(),
            old(self).index() > 0,
        ensures
            final(self).elements() == old(self).elements(),
            final(self).index() == old(self).index() - 1,
    ;
}

/// True where the position lies inside its sequence or directly behind its
/// last element.
pub open spec fn in_range<T: CppPosition>(p: &T) -> bool {
    0 <= p.index() <= p.elements().len()
}

/// A position in a slice.
pub struct SliceCursor<'a, T> {
    items: &'a [T],
    at: usize,
}

impl<'a, T: Copy> SliceCursor<'a, T> {
    /// The position before the first element of `items`.
    pub fn begin(items: &'a [T]) -> (r: Self)
        ensures
            in_range(&r),
            r.elements() == items@,
            r.index() == 0,
    {
        SliceCursor { items, at: 0 }
    }

    /// The position behind the last element of `items`.
    pub fn end(items: &'a [T]) -> (r: Self)
        ensures
            in_range(&r),
            r.elements() == items@,
            r.index() == items@.len(),
    {
        SliceCursor { items, at: items.len() }
    }

    /// How many elements stand before this position.
    pub fn offset(&self) -> (r: usize)
        ensures
            r == self.index(),
    {
        self.at
    }
}

impl<'a, T: Copy> CppPosition for SliceCursor<'a, T> {
    type Item = T;

    closed spec fn elements(&self) -> Seq<T> {
        self.items@
    }

    closed spec fn index(&self) -> int {
        self.at as int
    }

    fn same_position(&self, other: &Self) -> (r: bool) {
        self.at == other.at
    }

    fn indirection(&self) -> (r: T) {
        self.items[self.at]
    }

    fn inc(&mut self) {
        let len = self.items.len();
        assert(self.at < len);
        self.at = self.at + 1;
    }

    fn dec(&mut self) {
        self.at = self.at - 1;
    }
}

/// The sequence between two positions of one foreign sequence. It is
/// consumed from both sides: from the front by [`CppIterator::next`], from
/// the back by [`CppIterator::next_back`].
pub struct CppIterator<T: CppPosition> {
    begin: T,
    end: T,
}

impl<T: CppPosition> CppIterator<T> {
    /// True where both positions belong to one sequence and the begin does
    /// not stand behind the end.
    pub closed spec fn wf(&self) -> bool {
        &&& in_range(&self.begin)
        &&& in_range(&self.end)
        &&& self.begin.elements() == self.end.elements()
        &&& self.begin.index() <= self.end.index()
    }

    /// The foreign sequence that the positions belong to.
    pub closed spec fn elements(&self) -> Seq<T::Item> {
        self.begin.elements()
    }

    /// The place of the next element at the front.
    pub closed spec fn front(&self) -> int {
        self.begin.index()
    }

    /// The place directly behind the next element at the back.
    pub closed spec fn back(&self) -> int {
        self.end.index()
    }

    /// The elements that are still to come, in forward order.
    pub open spec fn pending(&self) -> Seq<T::Item> {
        self.elements().subrange(self.front(), self.back())
    }

    /// What `wf` means for the places: they delimit a range of the
    /// sequence.
    pub proof fn lemma_wf_bounds(&self)
        requires
            self.wf(),
        ensures
            0 <= self.front() <= self.back() <= self.elements().len(),
    {
    }

    /// Yields the element at the front and advances the front by one
    /// position, or yields nothing where front and back have met.
    pub fn next(&mut self) -> (r: Option<T::Item>)
        requires
            old(self).wf(),
        ensures
            final(self).wf(),
            final(self).elements() == old(self).elements(),
            final(self).back() == old(self).back(),
            old(self).front() == old(self).back() ==> r is None && final(self).front() == old(
                self,
            ).front(),
            old(self).front() < old(self).back() ==> r == Some(
                old(self).elements()[old(self).front()],
            ) && final(self).front() == old(self).front() + 1,
    {
        if self.begin.same_position(&self.end) {
            None
        } else {
            let value = self.begin.indirection();
            self.begin.inc();
            Some(value)
        }
    }

    /// Retreats the back by one position and yields the element there, or
    /// yields nothing where front and back have met.
    pub fn next_back(&mut self) -> (r: Option<T::Item>)
        requires
            old(self).wf(),
        ensures
            final(self).wf(),
            final(self).elements() == old(self).elements(),
            final(self).front() == old(self).front(),
            old(self).front() == old(self).back() ==> r is None && final(self).back() == old(
                self,
            ).back(),
            old(self).front() < old(self).back() ==> r == Some(
                old(self).elements()[old(self).back() - 1],
            ) && final(self).back() == old(self).back() - 1,
    {
        if self.begin.same_position(&self.end) {
            None
        } else {
            self.end.dec();
            let value = self.end.indirection();
            Some(value)
        }
    }

    /// Yields all elements that are still to come, from the front, until
    /// the sequence is exhausted.
    pub fn collect_forward(&mut self) -> (r: Vec<T::Item>)
        requires
            old(self).wf(),
        ensures
            final(self).wf(),
            r@ == old(self).pending(),
            final(self).front() == old(self).back(),
            final(self).back() == old(self).back(),
            final(self).elements() == old(self).elements(),
    {
        let mut out: Vec<T::Item> = Vec::new();
        loop
            invariant
                self.wf(),
                self.elements() == old(self).elements(),
                self.back() == old(self).back(),
                0 <= old(self).front() <= self.front() <= self.back() <= self.elements().len(),
                out@ == self.elements().subrange(old(self).front(), self.front()),
            decreases self.back() - self.front(),
        {
            let ghost before = out@;
            let ghost at = self.front();
            match self.next() {
                Some(value) => {
                    out.push(value);
                    assert(out@ =~= before.push(self.elements()[at]));
                    assert(out@ =~= self.elements().subrange(old(self).front(), at + 1));
                },
                None => {
                    return out;
                },
            }
        }
    }

    /// Yields all elements that are still to come, from the back, until
    /// the sequence is exhausted.
    pub fn collect_backward(&mut self) -> (r: Vec<T::Item>)
        requires
            old(self).wf(),
        ensures
            final(self).wf(),
            r@ == old(self).pending().reverse(),
            final(self).front() == old(self).front(),
            final(self).back() == old(self).front(),
            final(self).elements() == old(self).elements(),
    {
        let mut out: Vec<T::Item> = Vec::new();
        loop
            invariant
                self.wf(),
                self.elements() == old(self).elements(),
                self.front() == old(self).front(),
                0 <= self.front() <= self.back() <= old(self).back() <= self.elements().len(),
                out@ == self.elements().subrange(self.back(), old(self).back()).reverse(),
            decreases self.back() - self.front(),
        {
            let ghost at = self.back();
            match self.next_back() {
                Some(value) => {
                    out.push(value);
                    assert(out@ =~= self.elements().subrange(at - 1, old(self).back()).reverse());
                },
                None => {
                    return out;
                },
            }
        }
    }
}

/// The elements that stand at the given places.
pub open spec fn elements_at<A>(elements: Seq<A>, places: Seq<int>) -> Seq<A> {
    places.map_values(|p: int| elements[p])
}

impl<T: CppPosition> CppIterator<T> {
    /// Takes one step for each entry of `steps`, from the front for
    /// `true` and from the back for `false`, and returns what the steps
    /// yield, in their order.
    pub fn take_steps(&mut self, steps: &Vec<bool>) -> (r: Vec<T::Item>)
        requires
            old(self).wf(),
        ensures
            final(self).wf(),
            final(self).elements() == old(self).elements(),
            r@ == elements_at(
                old(self).elements(),
                yielded_places(old(self).front(), old(self).back(), steps@),
            ),
    {
        let ghost elements = self.elements();
        let ghost all = yielded_places(self.front(), self.back(), steps@);
        let mut out: Vec<T::Item> = Vec::new();
        let mut i: usize = 0;
        assert(steps@.skip(0) =~= steps@);
        assert(out@ + elements_at(elements, all) =~= elements_at(elements, all));
        while i < steps.len()
            invariant
                i <= steps.len(),
                self.wf(),
                self.elements() == elements,
                elements == old(self).elements(),
                all == yielded_places(old(self).front(), old(self).back(), steps@),
                out@ + elements_at(
                    elements,
                    yielded_places(self.front(), self.back(), steps@.skip(i as int)),
                ) == elements_at(elements, all),
            decreases steps.len() - i,
        {
            let ghost before = out@;
            let ghost lo = self.front();
            let ghost hi = self.back();
            let ghost rest = steps@.skip(i as int);
            assert(rest[0] == steps@[i as int]);
            assert(rest.drop_first() =~= steps@.skip(i as int + 1));
            let value = if steps[i] {
                self.next()
            } else {
                self.next_back()
            };
            match value {
                Some(v) => {
                    out.push(v);
                    let ghost tail = yielded_places(self.front(), self.back(), rest.drop_first());
                    let ghost place = if steps@[i as int] {
                        lo
                    } else {
                        hi - 1
                    };
                    assert(yielded_places(lo, hi, rest) == seq![place] + tail);
                    assert(elements_at(elements, seq![place] + tail) =~= seq![v] + elements_at(
                        elements,
                        tail,
                    ));
                    assert(out@ + elements_at(elements, tail) =~= before + (seq![v] + elements_at(
                        elements,
                        tail,
                    )));
                },
                None => {},
            }
            i += 1;
        }
        assert(steps@.skip(i as int).len() == 0);
        assert(out@ + Seq::<T::Item>::empty() =~= out@);
        out
    }
}

/// Makes a sequence of the elements between `begin` and `end`.
///
/// Both must be positions of one foreign sequence, and `begin` must not
/// stand behind `end`: nothing else is checked when the sequence is
/// consumed.
pub fn cpp_iter<T: CppPosition>(begin: T, end: T) -> (r: CppIterator<T>)
    requires
        in_range(&begin),
        in_range(&end),
        begin.elements() == end.elements(),
        begin.index() <= end.index(),
    ensures
        r.wf(),
        r.elements() == begin.elements(),
        r.front() == begin.index(),
        r.back() == end.index(),
{
    CppIterator { begin, end }
}

/// The places that a run of steps yields on the range from `lo` to `hi`:
/// a step from the front (`true`) yields the lowest place that is left, a
/// step from the back (`false`) the highest, and an empty range yields
/// nothing.
pub open spec fn yielded_places(lo: int, hi: int, steps: Seq<bool>) -> Seq<int>
    decreases steps.len(),
{
    if steps.len() == 0 {
        Seq::empty()
    } else if lo >= hi {
        yielded_places(lo, hi, steps.drop_first())
    } else if steps[0] {
        seq![lo] + yielded_places(lo + 1, hi, steps.drop_first())
    } else {
        seq![hi - 1] + yielded_places(lo, hi - 1, steps.drop_first())
    }
}

/// However steps from the front and from the back are mixed, they yield
/// places of the range only, none of them twice, and as many as there are
/// steps, up to the length of the range.
pub proof fn lemma_steps_yield_each_place_once(lo: int, hi: int, steps: Seq<bool>)
    requires
        lo <= hi,
    ensures
        forall|k: int|
            0 <= k < yielded_places(lo, hi, steps).len() ==> lo <= #[trigger] yielded_places(
                lo,
                hi,
                steps,
            )[k] < hi,
        forall|a: int, b: int|
            0 <= a < b < yielded_places(lo, hi, steps).len() ==> yielded_places(lo, hi, steps)[a]
                != yielded_places(lo, hi, steps)[b],
        yielded_places(lo, hi, steps).len() == if steps.len() <= hi - lo {
            steps.len() as int
        } else {
            hi - lo
        },
    decreases steps.len(),
{
    if steps.len() > 0 {
        let rest = steps.drop_first();
        if lo >= hi {
            lemma_steps_yield_each_place_once(lo, hi, rest);
        } else if steps[0] {
            lemma_steps_yield_each_place_once(lo + 1, hi, rest);
        } else {
            lemma_steps_yield_each_place_once(lo, hi - 1, rest);
        }
    }
}

/// Only forward steps yield the places of the range in rising order;
/// only backward steps yield them in falling order.
pub proof fn lemma_one_direction(lo: int, hi: int, steps: Seq<bool>, k: int)
    requires
        lo <= hi,
        0 <= k < yielded_places(lo, hi, steps).len(),
    ensures
        (forall|i: int| 0 <= i < steps.len() ==> steps[i]) ==> yielded_places(lo, hi, steps)[k] == lo
            + k,
        (forall|i: int| 0 <= i < steps.len() ==> !steps[i]) ==> yielded_places(lo, hi, steps)[k]
            == hi - 1 - k,
    decreases steps.len(),
{
    lemma_steps_yield_each_place_once(lo, hi, steps);
    let rest = steps.drop_first();
    assert(forall|i: int| 0 <= i < rest.len() ==> rest[i] == steps[i + 1]);
    if k > 0 {
        if steps[0] {
            lemma_one_direction(lo + 1, hi, rest, k - 1);
        } else {
            lemma_one_direction(lo, hi - 1, rest, k - 1);
        }
    }
}

/// Gives the place directly behind the last element of a sequence, counted
/// in elements from its start.
pub trait EndPtr {
    /// Type of item.
    type Item;

    /// The items of the sequence.
    spec fn items(&self) -> Seq<Self::Item>;

    /// Returns the place past the last element.
    fn end_ptr(&self) -> (r: usize)
        ensures
            r == self.items().len(),
    ;
}

impl<'a, T> EndPtr for &'a [T] {
    type Item = T;

    open spec fn items(&self) -> Seq<T> {
        self@
    }

    fn end_ptr(&self) -> (r: usize) {
        self.len()
    }
}

impl<'a> EndPtr for &'a str {
    type Item = u8;

    open spec fn items(&self) -> Seq<u8> {
        self.spec_bytes()
    }

    fn end_ptr(&self) -> (r: usize) {
        self.as_bytes().len()
    }
}

} // verus!
