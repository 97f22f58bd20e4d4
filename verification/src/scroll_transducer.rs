//! The fixed-width byte-record specialization: a lazy view whose source is a
//! byte buffer plus a decoding context, and whose extractor decodes one
//! record of context-determined size at `index * size`. The aggregate bound
//! `count * size <= buffer length` is checked once at construction, which is
//! what lets every later access stay in bounds without a per-access check.

use core::marker::PhantomData;
use vstd::arithmetic::mul::lemma_mul_inequality;
use vstd::prelude::*;

use crate::lazy_transducer::flatten_ranges;
use crate::lazy_transducer::leaf_ranges;
use crate::lazy_transducer::lemma_order_equivalence;
use crate::lazy_transducer::select_at;
use crate::lazy_transducer::IndexedView;
use crate::lazy_transducer::IntoIter;
use crate::lazy_transducer::IntoParIter;
use crate::record::FromCtx;
use crate::TransducerError;

verus! {

/// A lazy transducer over fixed-width records embedded in a byte buffer.
///
/// Construction validates that all `count` records of
/// [`FromCtx::spec_size_with`] bytes each fit inside the buffer; afterwards
/// the `index`th element is decoded on demand at offset `index * size`.
#[derive(Debug)]
pub struct ScrollTransducer<'a, Output, Ctx> where Output: FromCtx<Ctx>, Ctx: Copy {
    pub(crate) contents: &'a [u8],
    pub(crate) count: usize,
    pub(crate) ctx: Ctx,
    pub(crate) _marker: PhantomData<Output>,
}

impl<'a, Output, Ctx> ScrollTransducer<'a, Output, Ctx> where Output: FromCtx<Ctx>, Ctx: Copy {
    /// The bytes the view decodes from.
    pub closed spec fn spec_bytes(&self) -> Seq<u8> {
        self.contents@
    }

    /// The decoding context the view was constructed with.
    pub closed spec fn spec_ctx(&self) -> Ctx {
        self.ctx
    }

    /// The aggregate bound established at construction: all records lie
    /// inside the buffer.
    pub open spec fn wf(&self) -> bool {
        (self.spec_len() as nat) * Output::spec_size_with(self.spec_ctx())
            <= self.spec_bytes().len()
    }

    /// The record decoded at index `i`, at byte offset `i * size`.
    pub open spec fn spec_elem(&self, i: int) -> Output {
        Output::spec_from_ctx(
            self.spec_bytes(),
            i * Output::spec_size_with(self.spec_ctx()),
            self.spec_ctx(),
        )
    }

    /// All `count` records in index order.
    pub open spec fn spec_elems(&self) -> Seq<Output> {
        Seq::new(self.spec_len() as nat, |i: int| self.spec_elem(i))
    }

    /// Create a new fixed-width lazy transducer, using `ctx` to decode
    /// `count` records out of `contents`.
    ///
    /// Succeeds exactly when `count * size` bytes are available — so a count
    /// of 0 is accepted over any buffer, and records of width 0 are trivially
    /// always in bounds. On failure nothing is read and the error reports the
    /// requested count, the record width, and the actual source length.
    pub fn parse_with(contents: &'a [u8], count: usize, ctx: Ctx) -> (r: Result<
        Self,
        TransducerError,
    >)
        ensures
            match r {
                Ok(lt) => {
                    &&& (count as nat) * Output::spec_size_with(ctx) <= contents@.len()
                    &&& lt.wf()
                    &&& lt.spec_len() == count
                    &&& lt.spec_bytes() == contents@
                    &&& lt.spec_ctx() == ctx
                },
                Err(e) => {
                    &&& (count as nat) * Output::spec_size_with(ctx) > contents@.len()
                    &&& e == (TransducerError::ElementOverflow {
                        nelements: count,
                        sizeof_element: Output::spec_size_with(ctx) as usize,
                        src_size: contents@.len() as usize,
                    })
                },
            },
            count == 0 ==> r is Ok,
    {
        let sizeof_element = Output::size_with(&ctx);
        let src_size = contents.len();
        match sizeof_element.checked_mul(count) {
            Some(total_size) if total_size <= src_size => {
                Ok(ScrollTransducer { contents, count, ctx, _marker: PhantomData })
            },
            _ => {
                proof {
                    // When the product overflows usize it certainly exceeds
                    // the source length, which fits in usize.
                    assert((count as nat) * Output::spec_size_with(ctx) == (
                    Output::spec_size_with(ctx) as nat) * (count as nat)) by (nonlinear_arith);
                    // A zero count never lands here: its product is zero.
                    assert((sizeof_element as int) * 0 == 0) by (nonlinear_arith);
                }
                Err(TransducerError::ElementOverflow { nelements: count, sizeof_element, src_size })
            },
        }
    }

    /// The empty view over an empty source: what `parse_with` of count 0
    /// yields, guaranteed to succeed.
    pub fn empty(ctx: Ctx) -> (r: Self)
        ensures
            r.wf(),
            r.spec_len() == 0,
            r.spec_bytes().len() == 0,
            r.spec_ctx() == ctx,
    {
        ScrollTransducer { contents: &[], count: 0, ctx, _marker: PhantomData }
    }

    /// Begin sequential iteration; records come out strictly in ascending
    /// index order `0..count`.
    pub fn into_iter(self) -> (r: IntoIter<Self>)
        ensures
            r.cursor() == 0,
            r.underlying() == self,
    {
        IntoIter::new(self)
    }

    /// Begin parallel iteration: the handle hands out a range producer over
    /// the whole index range, to be driven by an external fork/join runtime.
    pub fn into_par_iter(self) -> (r: IntoParIter<Self>)
        ensures
            r.cursor() == 0,
            r.underlying() == self,
    {
        IntoParIter::new(self)
    }
}

impl<'a, Output, Ctx> IndexedView for ScrollTransducer<'a, Output, Ctx> where
    Output: FromCtx<Ctx>,
    Ctx: Copy,
 {
    type Elem = Output;

    closed spec fn spec_len(&self) -> usize {
        self.count
    }

    open spec fn ok(&self, i: int) -> bool {
        self.wf()
    }

    /// A valid element is exactly the record decoded at the index's offset:
    /// the view never fabricates or caches a value.
    open spec fn elem_ok(&self, i: int, e: Output) -> bool {
        e == self.spec_elem(i)
    }

    fn len(&self) -> usize {
        self.count
    }

    /// Decode the record at `idx`, or `None` when `idx` is at or above the
    /// element count; in that case the source is never read.
    fn get(&self, idx: usize) -> Option<Output> {
        if idx >= self.count {
            None
        } else {
            let sizeof_element = Output::size_with(&self.ctx);
            let src_size = self.contents.len();
            proof {
                let s = Output::spec_size_with(self.spec_ctx()) as int;
                lemma_mul_inequality(idx + 1 as int, self.count as int, s);
                assert((idx + 1 as int) * s == idx * s + s) by (nonlinear_arith);
            }
            let offset = idx * sizeof_element;
            Some(Output::from_ctx(self.contents, offset, self.ctx))
        }
    }
}

impl<'a, Output, Ctx> Clone for ScrollTransducer<'a, Output, Ctx> where
    Output: FromCtx<Ctx>,
    Ctx: Copy,
 {
    /// Cloning duplicates the `(buffer handle, count, context)` triple and
    /// never copies or re-reads the underlying bytes.
    fn clone(&self) -> (r: Self)
        ensures
            r.spec_len() == self.spec_len(),
            r.spec_bytes() == self.spec_bytes(),
            r.spec_ctx() == self.spec_ctx(),
    {
        ScrollTransducer {
            contents: self.contents,
            count: self.count,
            ctx: self.ctx,
            _marker: PhantomData,
        }
    }
}

/// Order equivalence for a fixed-width view: reading its records leaf range
/// by leaf range, each leaf in ascending index order and the leaves in the
/// order the full split produces them, yields exactly the sequential record
/// sequence.
pub proof fn lemma_scroll_order_equivalence<'a, Output, Ctx>(lt: ScrollTransducer<'a, Output, Ctx>) where
    Output: FromCtx<Ctx>,
    Ctx: Copy,

    ensures
        select_at(lt.spec_elems(), flatten_ranges(leaf_ranges(0, lt.spec_len() as int)))
            == lt.spec_elems(),
{
    lemma_order_equivalence(lt.spec_elems());
}

} // verus!
