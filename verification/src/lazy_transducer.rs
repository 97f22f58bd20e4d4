//! The lazy, indexable view at the heart of the crate, together with its
//! sequential cursor and the range producer that supports balanced splitting
//! for parallel traversal.

use core::marker::PhantomData;
use vstd::pervasive::unreached;
use vstd::prelude::*;

verus! {

/// An indexable view over `spec_len()` elements.
///
/// `ok(i)` is what a caller must establish before asking for the `i`th
/// element, and `elem_ok(i, e)` says that `e` is a valid `i`th element. The
/// sequential cursor and the range producer traverse any such view.
pub trait IndexedView: Sized {
    type Elem;

    /// How many elements the view addresses.
    spec fn spec_len(&self) -> usize;

    /// The obligation for asking for the element at index `i`.
    spec fn ok(&self, i: int) -> bool;

    /// Whether `e` is a valid element at index `i`.
    spec fn elem_ok(&self, i: int, e: Self::Elem) -> bool;

    /// How many elements are contained in this view.
    fn len(&self) -> (r: usize)
        ensures
            r == self.spec_len(),
    ;

    /// The element at `idx`, or `None` when `idx` is out of range; absence is
    /// a normal outcome, never an error.
    fn get(&self, idx: usize) -> (r: Option<Self::Elem>)
        requires
            idx < self.spec_len() ==> self.ok(idx as int),
        ensures
            match r {
                Some(e) => idx < self.spec_len() && self.elem_ok(idx as int, e),
                None => idx >= self.spec_len(),
            },
    ;
}

/// A lazy transducer is a declarative description of the transformation of
/// one kind of data into another.
///
/// The transformer is called the transducer: it receives the original source
/// `contents` and an index, and returns the corresponding element out of that
/// source. No element exists until it is asked for; asking is a single
/// transducer call, so random access costs one extraction.
///
/// The view never owns or copies the underlying data: `contents` is a cheap
/// `Copy` handle (typically a borrowed slice), and duplicating the view
/// duplicates the handle alone.
#[derive(Debug)]
#[verifier::reject_recursive_types(Output)]
pub struct LazyTransducer<Input, Output, F> where Input: Copy, F: Fn(Input, usize) -> Output {
    pub(crate) count: usize,
    pub(crate) contents: Input,
    pub(crate) transducer: F,
    pub(crate) _marker: PhantomData<Output>,
}

impl<Input, Output, F> LazyTransducer<Input, Output, F> where
    Input: Copy,
    F: Fn(Input, usize) -> Output,
 {
    /// The source handle the view was constructed over.
    pub closed spec fn spec_contents(&self) -> Input {
        self.contents
    }

    /// The transducer the view extracts elements with.
    pub closed spec fn func(&self) -> F {
        self.transducer
    }

    /// How many elements are contained in this lazy transducer.
    pub fn len(&self) -> (r: usize)
        ensures
            r == self.spec_len(),
    {
        self.count
    }

    /// Create a new `LazyTransducer` with `count` elements in `contents`,
    /// using `transducer` to extract them.
    ///
    /// Construction always succeeds: it is the caller's responsibility that
    /// the transducer may be invoked for every index below `count`, which is
    /// exactly what [`IndexedView::ok`] asks of readers.
    pub fn new(contents: Input, count: usize, transducer: F) -> (r: Self)
        ensures
            r.spec_len() == count,
            r.spec_contents() == contents,
            r.func() == transducer,
    {
        LazyTransducer { count, contents, transducer, _marker: PhantomData }
    }

    /// Get an element out of the lazy transducer, returning `None` if the
    /// index is at or above the number of elements; in that case the
    /// transducer is never invoked.
    pub fn get(&self, idx: usize) -> (r: Option<Output>)
        requires
            idx < self.spec_len() ==> call_requires(
                self.func(),
                (self.spec_contents(), idx),
            ),
        ensures
            match r {
                Some(e) => idx < self.spec_len() && call_ensures(
                    self.func(),
                    (self.spec_contents(), idx),
                    e,
                ),
                None => idx >= self.spec_len(),
            },
    {
        if idx >= self.count {
            None
        } else {
            Some((self.transducer)(self.contents, idx))
        }
    }
}

impl<Input, Output, F> IndexedView for LazyTransducer<Input, Output, F> where
    Input: Copy,
    F: Fn(Input, usize) -> Output,
 {
    type Elem = Output;

    closed spec fn spec_len(&self) -> usize {
        self.count
    }

    open spec fn ok(&self, i: int) -> bool {
        call_requires(self.func(), (self.spec_contents(), i as usize))
    }

    open spec fn elem_ok(&self, i: int, e: Output) -> bool {
        call_ensures(self.func(), (self.spec_contents(), i as usize), e)
    }

    fn len(&self) -> usize {
        self.count
    }

    fn get(&self, idx: usize) -> Option<Output> {
        LazyTransducer::get(self, idx)
    }
}

/// What asking a lazy transducer for index `i` obliges the caller to: the
/// transducer must accept `(contents, i)`. Spelled out as a lemma so that the
/// equivalence is available at every instantiation of the transducer type.
pub broadcast proof fn lemma_lazy_transducer_ok<Input, Output, F>(
    lt: LazyTransducer<Input, Output, F>,
    i: int,
) where Input: Copy, F: Fn(Input, usize) -> Output
    ensures
        #[trigger] lt.ok(i) <==> call_requires(lt.func(), (lt.spec_contents(), i as usize)),
{
}

/// What a valid element of a lazy transducer is: any value its transducer may
/// return for `(contents, i)`. Spelled out as a lemma so that the equivalence
/// is available at every instantiation of the transducer type.
pub broadcast proof fn lemma_lazy_transducer_elem_ok<Input, Output, F>(
    lt: LazyTransducer<Input, Output, F>,
    i: int,
    e: Output,
) where Input: Copy, F: Fn(Input, usize) -> Output
    ensures
        #[trigger] lt.elem_ok(i, e) <==> call_ensures(
            lt.func(),
            (lt.spec_contents(), i as usize),
            e,
        ),
{
}

impl<Input, Output, F> LazyTransducer<Input, Output, F> where
    Input: Copy,
    F: Fn(Input, usize) -> Output,
 {
    /// Begin sequential iteration; elements come out strictly in ascending
    /// index order `0..count`.
    pub fn into_iter(self) -> (r: IntoIter<Self>)
        ensures
            r.cursor() == 0,
            r.underlying() == self,
    {
        IntoIter::new(self)
    }

    /// Begin parallel iteration: the handle hands out a range producer over
    /// the whole index range, to be driven by an external fork/join runtime.
    pub fn into_par_iter(self) -> (r: IntoParIter<Self>)
        ensures
            r.cursor() == 0,
            r.underlying() == self,
    {
        IntoParIter::new(self)
    }
}

impl<Input, Output, F> Clone for LazyTransducer<Input, Output, F> where
    Input: Copy,
    F: Fn(Input, usize) -> Output + Copy,
 {
    /// Cloning duplicates the `(source handle, count, transducer)` triple and
    /// never copies or re-reads the underlying data.
    fn clone(&self) -> (r: Self)
        ensures
            r.spec_len() == self.spec_len(),
            r.spec_contents() == self.spec_contents(),
            r.func() == self.func(),
    {
        LazyTransducer {
            count: self.count,
            contents: self.contents,
            transducer: self.transducer,
            _marker: PhantomData,
        }
    }
}

/// A sequential cursor over the elements produced by an indexable view,
/// yielding them strictly in ascending index order.
pub struct IntoIter<V: IndexedView> {
    current: usize,
    view: V,
}

impl<V: IndexedView> IntoIter<V> {
    /// The index the cursor will yield next.
    pub closed spec fn cursor(&self) -> usize {
        self.current
    }

    /// The view the cursor walks.
    pub closed spec fn underlying(&self) -> V {
        self.view
    }

    /// A fresh cursor over `view`, starting at index 0.
    pub fn new(view: V) -> (r: Self)
        ensures
            r.cursor() == 0,
            r.underlying() == view,
    {
        IntoIter { current: 0, view }
    }

    /// The total number of elements of the underlying view.
    pub fn len(&self) -> (r: usize)
        ensures
            r == self.underlying().spec_len(),
    {
        self.view.len()
    }

    /// The next element in index order, or `None` once every index below the
    /// view's length has been yielded.
    pub fn next(&mut self) -> (r: Option<V::Elem>)
        requires
            old(self).cursor() < old(self).underlying().spec_len() ==> old(self).underlying().ok(
                old(self).cursor() as int,
            ),
        ensures
            final(self).underlying() == old(self).underlying(),
            old(self).cursor() < old(self).underlying().spec_len() ==> {
                &&& final(self).cursor() == old(self).cursor() + 1
                &&& r matches Some(e) && old(self).underlying().elem_ok(
                    old(self).cursor() as int,
                    e,
                )
            },
            old(self).cursor() >= old(self).underlying().spec_len() ==> {
                &&& r is None
                &&& final(self).cursor() == old(self).cursor()
            },
    {
        if self.current >= self.view.len() {
            None
        } else {
            let output = self.view.get(self.current);
            self.current = self.current + 1;
            output
        }
    }
}

/// The handle from which parallel traversal starts: it hands out a range
/// producer over the view's whole index range. Driving that producer — the
/// fork/join scheduling and the merging of worker results — belongs to an
/// external runtime, not to this crate.
pub struct IntoParIter<V: IndexedView> {
    current: usize,
    view: V,
}

impl<V: IndexedView> IntoParIter<V> {
    /// The index traversal starts at.
    pub closed spec fn cursor(&self) -> usize {
        self.current
    }

    /// The view to traverse.
    pub closed spec fn underlying(&self) -> V {
        self.view
    }

    /// A fresh parallel-iteration handle over `view`.
    pub fn new(view: V) -> (r: Self)
        ensures
            r.cursor() == 0,
            r.underlying() == view,
    {
        IntoParIter { current: 0, view }
    }

    /// The range producer over `[cursor, count)` that an external fork/join
    /// driver splits and folds.
    pub fn producer<'b>(&'b self) -> (r: Producer<'b, V>)
        ensures
            r.lo() == self.cursor(),
            r.hi() == self.underlying().spec_len(),
            r.underlying() == self.underlying(),
    {
        Producer { view: &self.view, current: self.current, top: self.view.len() }
    }
}

/// An ephemeral unit of parallel work: a sub-range `[current, top)` of the
/// indices of a shared view. It is either split into two balanced disjoint
/// halves, or folded sequentially as a leaf.
pub struct Producer<'b, V: IndexedView> {
    view: &'b V,
    current: usize,
    top: usize,
}

impl<'b, V: IndexedView> Producer<'b, V> {
    /// The first index of the remaining range.
    pub closed spec fn lo(&self) -> usize {
        self.current
    }

    /// The index one past the end of the range.
    pub closed spec fn hi(&self) -> usize {
        self.top
    }

    /// The shared view the range addresses.
    pub closed spec fn underlying(&self) -> V {
        *self.view
    }

    /// A well-formed producer: a sub-range of the view's indices, every one
    /// of which may be asked for.
    pub open spec fn wf(&self) -> bool {
        &&& self.lo() <= self.hi()
        &&& self.hi() <= self.underlying().spec_len()
        &&& forall|i: int| self.lo() <= i < self.hi() ==> self.underlying().ok(i)
    }

    /// The next element of the sub-range in index order, or `None` once the
    /// range is exhausted.
    pub fn next(&mut self) -> (r: Option<V::Elem>)
        requires
            old(self).lo() < old(self).hi() && old(self).lo() < old(self).underlying().spec_len()
                ==> old(self).underlying().ok(old(self).lo() as int),
        ensures
            final(self).underlying() == old(self).underlying(),
            final(self).hi() == old(self).hi(),
            old(self).lo() < old(self).hi() && old(self).lo() < old(self).underlying().spec_len()
                ==> {
                &&& final(self).lo() == old(self).lo() + 1
                &&& r matches Some(e) && old(self).underlying().elem_ok(old(self).lo() as int, e)
            },
            !(old(self).lo() < old(self).hi() && old(self).lo() < old(self).underlying().spec_len())
                ==> {
                &&& r is None
                &&& final(self).lo() == old(self).lo()
            },
    {
        if self.current >= self.top || self.current >= self.view.len() {
            None
        } else {
            let output = self.view.get(self.current);
            self.current = self.current + 1;
            output
        }
    }

    /// Split the range `[current, top)` at the midpoint
    /// `current + (top - current) / 2`.
    ///
    /// A range of length at most 1 is a leaf: it comes back whole with no
    /// right half. Otherwise the left half keeps `[current, mid)` and the
    /// right half takes `[mid, top)`: disjoint, adjacent, and balanced, which
    /// bounds the fan-out of repeated splitting logarithmically.
    pub fn split(self) -> (r: (Self, Option<Self>))
        requires
            self.lo() <= self.hi(),
        ensures
            r.0.underlying() == self.underlying(),
            self.hi() - self.lo() > 1 ==> {
                &&& r.0.lo() == self.lo()
                &&& r.0.hi() == self.lo() + (self.hi() - self.lo()) / 2
                &&& r.1 matches Some(right) && right.underlying() == self.underlying()
                    && right.lo() == self.lo() + (self.hi() - self.lo()) / 2 && right.hi()
                    == self.hi()
            },
            self.hi() - self.lo() <= 1 ==> r.0.lo() == self.lo() && r.0.hi() == self.hi() && r.1
                is None,
    {
        let mut left = self;
        let len = left.top - left.current;
        if len > 1 {
            let old_top = left.top;
            let split_len = len / 2;
            left.top = left.current + split_len;
            let right = Producer { view: left.view, current: left.top, top: old_top };
            (left, Some(right))
        } else {
            (left, None)
        }
    }

    /// Fold the remaining range sequentially, collecting its elements in
    /// ascending index order: the degenerate, leaf-level traversal.
    pub fn fold(self) -> (r: Vec<V::Elem>)
        requires
            self.wf(),
        ensures
            r@.len() == self.hi() - self.lo(),
            forall|i: int|
                0 <= i < r@.len() ==> self.underlying().elem_ok(self.lo() + i, #[trigger] r@[i]),
    {
        let ghost start = self;
        let mut p = self;
        let mut out: Vec<V::Elem> = Vec::new();
        while p.current < p.top
            invariant
                p.underlying() == start.underlying(),
                p.hi() == start.hi(),
                start.lo() <= p.lo() <= p.hi(),
                start.wf(),
                out@.len() == p.lo() - start.lo(),
                forall|i: int|
                    0 <= i < out@.len() ==> start.underlying().elem_ok(
                        start.lo() + i,
                        #[trigger] out@[i],
                    ),
            decreases p.hi() - p.lo(),
        {
            match p.next() {
                Some(e) => out.push(e),
                None => (),
            }
        }
        out
    }

    /// Split the range recursively all the way down to leaves, fold each
    /// leaf, and put the pieces back together in index order.
    ///
    /// This is the sequential image of a parallel traversal: the leaves are
    /// exactly the disjoint units a fork/join driver would hand to workers,
    /// and reassembling them reproduces every element of the range exactly
    /// once.
    pub fn split_fold(self) -> (r: Vec<V::Elem>)
        requires
            self.wf(),
        ensures
            r@.len() == self.hi() - self.lo(),
            forall|i: int|
                0 <= i < r@.len() ==> self.underlying().elem_ok(self.lo() + i, #[trigger] r@[i]),
        decreases self.hi() - self.lo(),
    {
        let len = self.top - self.current;
        if len <= 1 {
            self.fold()
        } else {
            let (left, right) = self.split();
            match right {
                Some(rt) => {
                    let mut out = left.split_fold();
                    let mut tail = rt.split_fold();
                    out.append(&mut tail);
                    out
                },
                None => unreached(),
            }
        }
    }
}

/// The ascending indices of the half-open range `[lo, hi)`.
pub open spec fn range_indices(lo: int, hi: int) -> Seq<int> {
    Seq::new(if lo <= hi {
        (hi - lo) as nat
    } else {
        0
    }, |i: int| lo + i)
}

/// The leaf ranges produced by splitting `[lo, hi)` at midpoints all the way
/// down, exactly as [`Producer::split`] does: a range of length at most 1 is
/// a leaf; a longer one divides at `lo + (hi - lo) / 2`, left leaves first.
pub open spec fn leaf_ranges(lo: int, hi: int) -> Seq<(int, int)>
    decreases hi - lo,
{
    if hi - lo <= 1 {
        seq![(lo, hi)]
    } else {
        leaf_ranges(lo, lo + (hi - lo) / 2) + leaf_ranges(lo + (hi - lo) / 2, hi)
    }
}

/// All indices of a sequence of ranges, flattened in order.
pub open spec fn flatten_ranges(ranges: Seq<(int, int)>) -> Seq<int>
    decreases ranges.len(),
{
    if ranges.len() == 0 {
        Seq::empty()
    } else {
        range_indices(ranges[0].0, ranges[0].1) + flatten_ranges(ranges.drop_first())
    }
}

/// Flattening distributes over concatenation of range sequences.
proof fn lemma_flatten_ranges_append(a: Seq<(int, int)>, b: Seq<(int, int)>)
    ensures
        flatten_ranges(a + b) == flatten_ranges(a) + flatten_ranges(b),
    decreases a.len(),
{
    if a.len() == 0 {
        assert(a + b =~= b);
        assert(flatten_ranges(a) + flatten_ranges(b) =~= flatten_ranges(b));
    } else {
        assert((a + b).len() > 0);
        assert((a + b)[0] == a[0]);
        assert((a + b).drop_first() =~= a.drop_first() + b);
        lemma_flatten_ranges_append(a.drop_first(), b);
        assert(flatten_ranges(a + b) =~= flatten_ranges(a) + flatten_ranges(b));
    }
}

/// The leaves of a full split of `[lo, hi)` flatten back to exactly the
/// ascending indices `lo..hi`.
proof fn lemma_leaf_ranges_cover(lo: int, hi: int)
    requires
        lo <= hi,
    ensures
        flatten_ranges(leaf_ranges(lo, hi)) == range_indices(lo, hi),
    decreases hi - lo,
{
    if hi - lo <= 1 {
        let one = seq![(lo, hi)];
        assert(one[0] == (lo, hi));
        assert(one.drop_first() =~= Seq::<(int, int)>::empty());
        assert(flatten_ranges(Seq::<(int, int)>::empty()) =~= Seq::<int>::empty());
        assert(flatten_ranges(one) =~= range_indices(lo, hi));
    } else {
        let mid = lo + (hi - lo) / 2;
        lemma_leaf_ranges_cover(lo, mid);
        lemma_leaf_ranges_cover(mid, hi);
        lemma_flatten_ranges_append(leaf_ranges(lo, mid), leaf_ranges(mid, hi));
        assert(range_indices(lo, mid) + range_indices(mid, hi) =~= range_indices(lo, hi));
    }
}

/// Work conservation: for any view of `count` elements — including 0 and 1 —
/// recursively splitting the full index range `[0, count)` as
/// [`Producer::split`] does and flattening all resulting leaf ranges back
/// together reproduces every index exactly once, in ascending order. No
/// element is skipped or duplicated across parallel workers.
pub proof fn lemma_split_work_conservation(count: int)
    requires
        0 <= count,
    ensures
        flatten_ranges(leaf_ranges(0, count)) == range_indices(0, count),
{
    lemma_leaf_ranges_cover(0, count);
}

/// The elements of `elems` at the positions listed in `idxs`, in that order.
pub open spec fn select_at<T>(elems: Seq<T>, idxs: Seq<int>) -> Seq<T> {
    idxs.map_values(|j: int| elems[j])
}

/// Order equivalence: reading a view's element sequence leaf range by leaf
/// range, each leaf in ascending index order and the leaves in the order the
/// full split produces them, yields exactly the sequential element sequence.
pub proof fn lemma_order_equivalence<T>(elems: Seq<T>)
    ensures
        select_at(elems, flatten_ranges(leaf_ranges(0, elems.len() as int))) == elems,
{
    lemma_split_work_conservation(elems.len() as int);
    assert(select_at(elems, range_indices(0, elems.len() as int)) =~= elems);
}

} // verus!
